//! An image carousel: the fit geometry that places an image in a viewport,
//! the navigation state over an ordered set of image paths, and the protocol
//! that keeps that state consistent with copy, move and delete operations on
//! the filesystem.

pub mod action;
pub mod geometry;
pub mod mutation;
pub mod navigation;
