//! JPNG: a container that packs a base image and a grayscale mask into one
//! file, closed by a fixed-size footer that says where each of them lies.
//!
//! The footer codec, the rules that split a file into its parts and the
//! compositing of base and mask are verified. The footer's integers are read
//! by `byteorder` and pixel formats are converted by the `image` crate; each
//! call into them is a small function whose contract is taken on trust.
//! Decoding the two embedded images is the caller's part, between
//! [`container::split`] and [`Jpng::from_decoded`].

pub mod codec;
pub mod container;
pub mod decimal;
pub mod error;
pub mod footer;
pub mod le;
pub mod raster;

pub use crate::container::Jpng;
pub use crate::error::JpngError;
