pub mod fs_model;
pub mod installer;
pub mod locator;
pub mod redirect;
pub mod target;
pub mod version_info;
