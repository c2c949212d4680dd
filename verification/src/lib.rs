//! Verified core of a desktop-pet companion: pet catalogue records, id and
//! URL sanitising, image sniffing, proxy selection and usage statistics.

pub mod catalog;
pub mod image;
pub mod install;
pub mod market;
pub mod paths;
pub mod pet;
pub mod text;
pub mod zcode;
pub mod window;
