use vstd::prelude::*;

verus! {

/// A breakfast order: the toast is the guest's choice, the fruit the kitchen's.
pub struct Breakfast {
    pub toast: String,
    seasonal_fruit: String,
}

impl Breakfast {
    /// The toast the guest chose.
    pub closed spec fn toast_text(&self) -> Seq<char> {
        self.toast@
    }

    /// The fruit that comes with the breakfast.
    pub closed spec fn fruit(&self) -> Seq<char> {
        self.seasonal_fruit@
    }

    /// A summer breakfast with the given toast and peaches.
    pub fn summer(toast: &str) -> (r: Breakfast)
        ensures
            r.toast_text() == toast@,
            r.fruit() == "peaches"@,
    {
        Breakfast { toast: toast.to_owned(), seasonal_fruit: String::from_str("peaches") }
    }
}

/// A starter; every variant of a public enum is public.
pub enum Appetizer {
    Soup,
    Salad,
}

/// Cooks the order again and serves it.
#[allow(dead_code)]
fn fix_incorrect_order() {
    cook_order();
    crate::serve_order();
}

fn cook_order() {
}

} // verus!
