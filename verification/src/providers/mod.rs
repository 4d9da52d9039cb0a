//! The catalogues from which the details of media items come.

pub mod listennotes;
