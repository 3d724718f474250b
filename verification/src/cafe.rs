//! The cafe's breakfast menu.

use vstd::prelude::*;

verus! {

/// A breakfast order: the guest picks the toast, the kitchen picks the soup.
pub struct Breakfast {
    pub toast: String,
    soup_of_the_day: String,
}

impl Breakfast {
    /// The guest's toast choice.
    pub closed spec fn spec_toast(&self) -> Seq<char> {
        self.toast@
    }

    /// The kitchen's soup choice, which a guest cannot set directly.
    pub closed spec fn spec_soup_of_the_day(&self) -> Seq<char> {
        self.soup_of_the_day@
    }

    /// The summer menu: any toast, and the soup is always chowder.
    pub fn summer(toast: &str) -> (meal: Breakfast)
        ensures
            meal.spec_toast() == toast@,
            meal.spec_soup_of_the_day() == "chowder"@,
    {
        Breakfast { toast: toast.to_owned(), soup_of_the_day: "chowder".to_owned() }
    }
}

/// Orders the summer breakfast and swaps the toast afterwards: the toast is
/// the guest's to change, the soup is not.
pub fn eat_breakfast() {
    let mut meal = Breakfast::summer("Wheat");
    meal.toast = "Rye".to_owned();
}

} // verus!
