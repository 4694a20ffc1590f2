//! The captcha gate on login submissions: active only when both keys are
//! configured; a missing or empty challenge token fails before any network
//! call; otherwise the caller performs the verification request.

use vstd::prelude::*;
use vstd::string::StringExecFns;
use crate::config::TemplateData;

verus! {

/// What the login flow must do about the challenge.
pub enum CaptchaCheck {
    /// No captcha configured, or none required: continue the login.
    Proceed,
    /// Missing or empty challenge token: fail without any network call.
    Reject,
    /// Call the verification endpoint with these form values.
    Verify { secret: String, response: String },
}

/// Decides the captcha step from the configuration and the submitted
/// challenge token, before any network traffic.
pub fn captcha_begin(data: &TemplateData, token: Option<&str>) -> (r: CaptchaCheck)
    ensures
        !data.captcha_active() ==> r is Proceed,
        data.captcha_active() && token is None ==> r is Reject,
        token matches Some(t) ==> (data.captcha_active() && t@.len() == 0 ==> r is Reject),
        token matches Some(t) ==> (data.captcha_active() && t@.len() > 0 ==> {
            &&& r matches CaptchaCheck::Verify { secret, response }
            &&& secret@ == data.cf_secret_key->0@
            &&& response@ == t@
        }),
{
    if self_active(data) {
        match token {
            None => CaptchaCheck::Reject,
            Some(t) => {
                if t.unicode_len() == 0 {
                    CaptchaCheck::Reject
                } else {
                    let secret = match &data.cf_secret_key {
                        Some(s) => s.clone(),
                        None => String::new(),
                    };
                    CaptchaCheck::Verify { secret, response: t.to_owned() }
                }
            },
        }
    } else {
        CaptchaCheck::Proceed
    }
}

fn self_active(data: &TemplateData) -> (r: bool)
    ensures
        r == data.captcha_active(),
{
    data.cf_site_key.is_some() && data.cf_secret_key.is_some()
}

} // verus!
