//! Session control for a map "get point" page: the decisions of a browser
//! session, the region table and the search plan for a browser executable.

pub mod utils;
