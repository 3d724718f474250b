//! The barbecue place down the road, with a waitlist of its own.

pub mod hosting;
