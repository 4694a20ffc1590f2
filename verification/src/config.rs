//! Process-wide immutable configuration: the optional upstream origin
//! override and the optional captcha key pair, built once before serving.

use vstd::prelude::*;
use vstd::string::StringExecFns;

verus! {

/// The canonical upstream web origin; share links pointing at it are made
/// relative, and it is the default API origin.
pub open spec fn spec_upstream_origin() -> Seq<char> {
    "https://chat.openai.com"@
}

pub fn upstream_origin() -> (r: &'static str)
    ensures
        r@ == spec_upstream_origin(),
{
    "https://chat.openai.com"
}

/// The configuration the request handlers read.
pub struct TemplateData {
    /// Optional override of the upstream API origin.
    pub api_prefix: Option<String>,
    /// Captcha site key; the login form shows the challenge when set.
    pub cf_site_key: Option<String>,
    /// Captcha secret key; verification runs only when both keys are set.
    pub cf_secret_key: Option<String>,
}

impl TemplateData {
    /// The challenge check runs only when both keys are configured.
    pub open spec fn captcha_active(&self) -> bool {
        self.cf_site_key is Some && self.cf_secret_key is Some
    }

    pub fn is_captcha_active(&self) -> (r: bool)
        ensures
            r == self.captcha_active(),
    {
        self.cf_site_key.is_some() && self.cf_secret_key.is_some()
    }

    /// The upstream API origin: the configured prefix, or the canonical
    /// origin.
    pub open spec fn spec_upstream_url(&self) -> Seq<char> {
        match self.api_prefix {
            Some(s) => s@,
            None => spec_upstream_origin(),
        }
    }

    pub fn upstream_url(&self) -> (r: String)
        ensures
            r@ == self.spec_upstream_url(),
    {
        match &self.api_prefix {
            Some(s) => s.clone(),
            None => upstream_origin().to_owned(),
        }
    }

    /// The upstream endpoint for one shared conversation.
    pub fn share_api_url(&self, share_id: &str) -> (r: String)
        ensures
            r@ == self.spec_upstream_url() + "/backend-api/share/"@ + share_id@,
    {
        let mut r = self.upstream_url();
        r.append("/backend-api/share/");
        r.append(share_id);
        r
    }
}

} // verus!
