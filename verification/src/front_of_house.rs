//! The front of the house: greeting and serving guests.

pub mod hosting;
mod serving;
