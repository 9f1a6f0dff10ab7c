use vstd::prelude::*;

pub mod text;
pub mod parsers;
pub mod types;
pub mod error;
pub mod voting;
pub mod red_flag;
pub mod race;
pub mod step;
pub mod policy;
pub mod registry;
pub mod visibility;
pub mod system;
pub mod orchestrate;
pub mod model_request;
pub mod local;
pub mod admission;
pub mod capabilities;
pub mod http;

verus! {

/// A greeting from the library.
pub fn hello() -> (r: String)
    ensures
        r@ == "Hello from Boomai Core!"@,
{
    String::from_str("Hello from Boomai Core!")
}

} // verus!
