//! Native commands that an application shell offers to its web front end:
//! a greeting, the name of the platform it runs on, and a check of the
//! camera and microphone permissions.

pub mod android;
pub mod greeting;
pub mod permissions;
pub mod platform;

pub use android::{PermissionService, ServiceCall};
pub use greeting::greet;
pub use permissions::{
    check_and_request_permissions, Permission, PermissionCheck, PermissionError,
};
pub use platform::{get_platform, Platform};
