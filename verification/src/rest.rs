//! Rest after the meal.

pub mod bed;
