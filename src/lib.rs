pub mod bytes;
pub mod json;
pub mod proxy;
pub mod normalization;
