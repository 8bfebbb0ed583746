//! The push-notification commands that the front end calls.
//!
//! Every command is stateless and total. Where the real answer lives in the
//! native Android or iOS layer, the command reports that instead of a value
//! it cannot know here.
use vstd::prelude::*;
use crate::platform::{is_mobile, platform_name, Platform};

verus! {

/// Outcome of a push-token lookup.
#[derive(Debug, Clone)]
pub struct FcmTokenResult {
    pub token: Option<String>,
    pub error: Option<String>,
}

/// Notification permission state, and whether a prompt can be shown.
#[derive(Clone, Copy, Debug, PartialEq, Eq, Structural)]
pub struct PermissionResult {
    pub granted: bool,
    pub can_request: bool,
}

/// A feed to open, left behind by a tap on a notification.
#[derive(Debug, Clone)]
pub struct PendingNavigationResult {
    pub feed_id: Option<String>,
}

/// Why no push token is handed out on a platform.
pub open spec fn token_unavailable_reason(p: Platform) -> Seq<char> {
    match p {
        Platform::Android => "Use native bridge to retrieve FCM token"@,
        Platform::Ios => "iOS push notifications not yet implemented"@,
        Platform::Desktop => "Push notifications not available on desktop"@,
    }
}

/// The device name on a platform, given the host name lookup's outcome
/// (`None` where it failed). Only a desktop asks for the host name.
pub open spec fn device_name_for(p: Platform, host: Option<Seq<char>>) -> Seq<char> {
    match p {
        Platform::Android => "Android Device"@,
        Platform::Ios => "iOS Device"@,
        Platform::Desktop => match host {
            Some(h) => h,
            None => "Desktop"@,
        },
    }
}

/// The platform's name: "android", "ios" or "desktop".
pub fn get_platform(platform: Platform) -> (r: String)
    ensures
        r@ == platform_name(platform),
{
    match platform {
        Platform::Android => "android".to_owned(),
        Platform::Ios => "ios".to_owned(),
        Platform::Desktop => "desktop".to_owned(),
    }
}

/// Relies on hostname::get, which asks the operating system for the
/// machine's host name; a failed lookup becomes `None`, and bytes that are
/// not UTF-8 are replaced. The name depends on the machine, so nothing is
/// stated of it.
#[verifier::external_body]
fn lookup_host_name() -> (r: Option<String>) {
    match hostname::get() {
        Ok(h) => Some(h.to_string_lossy().to_string()),
        Err(_) => None,
    }
}

/// The device name for a platform, given the outcome of the host name lookup.
pub fn device_name_from_host(platform: Platform, host: Option<String>) -> (r: String)
    ensures
        r@ == device_name_for(platform, host.deep_view()),
{
    match platform {
        Platform::Android => "Android Device".to_owned(),
        Platform::Ios => "iOS Device".to_owned(),
        Platform::Desktop => match host {
            Some(h) => h,
            None => "Desktop".to_owned(),
        },
    }
}

/// A human-readable name for this device. A desktop reports its host name,
/// or "Desktop" where the lookup fails; a mobile platform reports a fixed
/// placeholder, since its native layer supplies the real one.
pub fn get_device_name(platform: Platform) -> (r: String)
    ensures
        exists|host: Option<Seq<char>>| r@ == device_name_for(platform, host),
        is_mobile(platform) ==> r@ == device_name_for(platform, None),
{
    let host = if platform == Platform::Desktop {
        lookup_host_name()
    } else {
        None
    };
    let r = device_name_from_host(platform, host);
    assert(r@ == device_name_for(platform, host.deep_view()));
    r
}

/// The notification permission state. A desktop needs no permission and has
/// nothing to ask for. A mobile platform reports an optimistic default that
/// its native layer has to confirm.
pub fn has_notification_permission(platform: Platform) -> (r: PermissionResult)
    ensures
        r.granted,
        r.can_request == is_mobile(platform),
{
    match platform {
        Platform::Desktop => PermissionResult { granted: true, can_request: false },
        _ => PermissionResult { granted: true, can_request: true },
    }
}

/// The push token. None is handed out at this layer: the result always
/// carries the reason instead (the native layer owns the token).
pub fn get_fcm_token(platform: Platform) -> (r: FcmTokenResult)
    ensures
        r.token.is_none(),
        r.error.is_some(),
        r.error.unwrap()@ == token_unavailable_reason(platform),
{
    let reason = match platform {
        Platform::Android => "Use native bridge to retrieve FCM token".to_owned(),
        Platform::Ios => "iOS push notifications not yet implemented".to_owned(),
        Platform::Desktop => "Push notifications not available on desktop".to_owned(),
    };
    FcmTokenResult { token: None, error: Some(reason) }
}

/// Whether push notifications exist on the platform: on the mobile ones only.
pub fn is_push_supported(platform: Platform) -> (r: bool)
    ensures
        r == is_mobile(platform),
{
    match platform {
        Platform::Desktop => false,
        _ => true,
    }
}

/// The feed a notification tap asked to open. It is never known at this
/// layer: the front end reads it from the native layer.
pub fn get_pending_navigation() -> (r: PendingNavigationResult)
    ensures
        r.feed_id.is_none(),
{
    PendingNavigationResult { feed_id: None }
}

/// Forgets the pending feed once it has been opened. The native layer owns
/// that state, so this always succeeds and changes nothing here.
pub fn clear_pending_navigation() -> (r: Result<(), String>)
    ensures
        r is Ok,
{
    Ok(())
}

/// The platform name is always one of the three fixed words "android", "ios"
/// and "desktop"; `get_platform` returns it for the platform it is given.
pub proof fn lemma_platform_name_is_fixed(p: Platform)
    ensures
        platform_name(p) == "android"@ || platform_name(p) == "ios"@ || platform_name(p)
            == "desktop"@,
{
}

} // verus!
