//! Small, verified utilities for two classic generic-programming exercises:
//! finding the maximum element of a sequence under a total order, and
//! selecting the longer of two string spans with an explicit tie-break
//! toward the second argument (optionally announcing the comparison to an
//! injected sink first).

pub mod extremum;
pub mod point;
pub mod selector;
