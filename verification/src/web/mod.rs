//! What the pages of the site show: the records behind each page, with every
//! instant printed as a date. Laying a page out is left to whoever renders it.

pub mod blogs;
pub mod errors;
