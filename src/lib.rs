//! The logic of a file-selection dialog for small screens: a directory view
//! that sorts and filters the entries of a folder, collects entries without
//! thumbnails into debounced batches for a thumbnailer, and tracks the
//! selection; and a window that shows the properties of one file. Every
//! operation takes and returns plain values, so that any toolkit can draw
//! the result.
use vstd::prelude::*;

pub mod dir_view;
pub mod entry;
pub mod file_props;
pub mod filtering;
pub mod sorting;
pub mod text;
pub mod thumbnails;

verus! {

} // verus!
