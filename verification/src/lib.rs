//! The verified core of the loco-laravel web application: the route tables
//! of its feature modules and the decisions its browser-facing auth pages make.
pub mod controllers;
pub mod modules;
pub mod routing;
