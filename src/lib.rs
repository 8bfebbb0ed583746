//! Platform capability facade for the Hush Feeds shell.
//!
//! Each command answers what the running platform can do for push
//! notifications. The platform is a value chosen once at startup, so every
//! command can be exercised for any platform on any host.
pub mod fcm;
pub mod platform;

pub use fcm::{
    clear_pending_navigation, device_name_from_host, get_device_name, get_fcm_token,
    get_pending_navigation, get_platform, has_notification_permission, is_push_supported,
    FcmTokenResult, PendingNavigationResult, PermissionResult,
};
pub use platform::Platform;
