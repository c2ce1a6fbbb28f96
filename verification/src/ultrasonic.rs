//! Units in which an ultrasonic range reading is expressed.

pub mod unit;
