//! Conversion of scalar function calls between the expressions of a query plan and their
//! protobuf messages.
//!
//! [`functions`] holds the conversions, [`model`] says what they compute, [`results`] what each
//! gives part by part, and [`laws`] what holds of them together.
#![allow(unused_imports)]

pub mod environment;
pub mod error;
pub mod functions;
pub mod ir;
pub mod laws;
pub mod model;
pub mod objects;
pub mod payload;
pub mod proto;
pub mod python;
pub mod registry;
pub mod requests;
pub mod results;
pub mod special;
