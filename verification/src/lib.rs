//! Verified core of an LED controller for a small Christmas tree of LEDs
//! driven through GPIO pins: LED states, pin assignment, animations,
//! the controller state served over HTTP, and the helpers of the web
//! front end that proxies to it.

pub mod led;
pub mod pins;
pub mod animation;
pub mod player;
pub mod controller;
pub mod text;
pub mod web;
