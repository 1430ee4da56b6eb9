use vstd::prelude::*;
use crate::text::{decimal, decimal_text};
use crate::uri::PolicyUri;

verus! {

/// A header name and value, as a policy encodes them.
pub struct PolicyHeader {
    pub name: String,
    pub value: String,
}

impl View for PolicyHeader {
    type V = (Seq<char>, Seq<char>);

    open spec fn view(&self) -> (Seq<char>, Seq<char>) {
        (self.name@, self.value@)
    }
}

/// A number of seconds for which a browser keeps a directive.
pub type MaxAge = u32;

/// 30 days in seconds, the default max-age of Expect-CT.
pub const EXPECTCT_MAX_AGE_DEFAULT: u32 = 2592000;

/// One year in seconds, the default max-age of Strict-Transport-Security.
pub const HSTS_MAX_AGE_DEFAULT: u32 = 31536000;

pub open spec fn referrer_name() -> Seq<char> {
    "Referrer-Policy"@
}

pub open spec fn expect_ct_name() -> Seq<char> {
    "Expect-CT"@
}

pub open spec fn no_sniff_name() -> Seq<char> {
    "X-Content-Type-Options"@
}

pub open spec fn hsts_name() -> Seq<char> {
    "Strict-Transport-Security"@
}

pub open spec fn frame_name() -> Seq<char> {
    "X-Frame-Options"@
}

pub open spec fn xss_name() -> Seq<char> {
    "X-XSS-Protection"@
}

/// `max-age=` followed by `m` in decimal.
pub open spec fn max_age_text(m: MaxAge) -> Seq<char> {
    "max-age="@ + decimal(m as nat)
}

fn max_age_string(m: MaxAge) -> (r: String)
    ensures
        r@ == max_age_text(m),
{
    let digits = decimal_text(m);
    String::from_str("max-age=").concat(digits.as_str())
}

/// How much of the referrer a browser discloses (Referrer-Policy).
pub enum ReferrerPolicy {
    NoReferrer,
    NoReferrerWhenDowngrade,
    Origin,
    OriginWhenCrossOrigin,
    SameOrigin,
    StrictOrigin,
    StrictOriginWhenCrossOrigin,
    UnsafeUrl,
}

impl Default for ReferrerPolicy {
    fn default() -> (r: ReferrerPolicy)
        ensures
            r == ReferrerPolicy::NoReferrer,
    {
        ReferrerPolicy::NoReferrer
    }
}

impl ReferrerPolicy {
    pub open spec fn spec_value(&self) -> Seq<char> {
        match self {
            ReferrerPolicy::NoReferrer => "no-referrer"@,
            ReferrerPolicy::NoReferrerWhenDowngrade => "no-referrer-when-downgrade"@,
            ReferrerPolicy::Origin => "origin"@,
            ReferrerPolicy::OriginWhenCrossOrigin => "origin-when-cross-origin"@,
            ReferrerPolicy::SameOrigin => "same-origin"@,
            ReferrerPolicy::StrictOrigin => "strict-origin"@,
            ReferrerPolicy::StrictOriginWhenCrossOrigin => "strict-origin-when-cross-origin"@,
            ReferrerPolicy::UnsafeUrl => "unsafe-url"@,
        }
    }

    pub open spec fn spec_header(&self) -> (Seq<char>, Seq<char>) {
        (referrer_name(), self.spec_value())
    }

    /// The Referrer-Policy header for this policy.
    pub fn header(&self) -> (h: PolicyHeader)
        ensures
            h@ == self.spec_header(),
    {
        let value = match self {
            ReferrerPolicy::NoReferrer => "no-referrer",
            ReferrerPolicy::NoReferrerWhenDowngrade => "no-referrer-when-downgrade",
            ReferrerPolicy::Origin => "origin",
            ReferrerPolicy::OriginWhenCrossOrigin => "origin-when-cross-origin",
            ReferrerPolicy::SameOrigin => "same-origin",
            ReferrerPolicy::StrictOrigin => "strict-origin",
            ReferrerPolicy::StrictOriginWhenCrossOrigin => "strict-origin-when-cross-origin",
            ReferrerPolicy::UnsafeUrl => "unsafe-url",
        };
        PolicyHeader { name: String::from_str("Referrer-Policy"), value: String::from_str(value) }
    }
}

/// Certificate transparency requirements (Expect-CT).
pub enum ExpectCTPolicy {
    Enforce(MaxAge),
    Report(MaxAge, PolicyUri),
    ReportAndEnforce(MaxAge, PolicyUri),
}

impl Default for ExpectCTPolicy {
    fn default() -> (r: ExpectCTPolicy)
        ensures
            r == ExpectCTPolicy::Enforce(EXPECTCT_MAX_AGE_DEFAULT),
    {
        ExpectCTPolicy::Enforce(EXPECTCT_MAX_AGE_DEFAULT)
    }
}

impl ExpectCTPolicy {
    pub open spec fn spec_value(&self) -> Seq<char> {
        match self {
            ExpectCTPolicy::Enforce(m) => max_age_text(*m) + ", enforce"@,
            ExpectCTPolicy::Report(m, u) => max_age_text(*m) + ", report-uri=\""@ + u@ + "\""@,
            ExpectCTPolicy::ReportAndEnforce(m, u) => max_age_text(*m)
                + ", enforce, report-uri=\""@ + u@ + "\""@,
        }
    }

    pub open spec fn spec_header(&self) -> (Seq<char>, Seq<char>) {
        (expect_ct_name(), self.spec_value())
    }

    /// The Expect-CT header for this policy.
    pub fn header(&self) -> (h: PolicyHeader)
        ensures
            h@ == self.spec_header(),
    {
        let value = match self {
            ExpectCTPolicy::Enforce(m) => max_age_string(*m).concat(", enforce"),
            ExpectCTPolicy::Report(m, u) => max_age_string(*m).concat(", report-uri=\"").concat(
                u.as_str(),
            ).concat("\""),
            ExpectCTPolicy::ReportAndEnforce(m, u) => max_age_string(*m).concat(
                ", enforce, report-uri=\"",
            ).concat(u.as_str()).concat("\""),
        };
        PolicyHeader { name: String::from_str("Expect-CT"), value }
    }
}

/// Whether browsers may sniff the content type (X-Content-Type-Options).
pub enum NoSniffPolicy {
    Enable,
}

impl Default for NoSniffPolicy {
    fn default() -> (r: NoSniffPolicy)
        ensures
            r == NoSniffPolicy::Enable,
    {
        NoSniffPolicy::Enable
    }
}

impl NoSniffPolicy {
    pub open spec fn spec_header(&self) -> (Seq<char>, Seq<char>) {
        (no_sniff_name(), "nosniff"@)
    }

    /// The X-Content-Type-Options header for this policy.
    pub fn header(&self) -> (h: PolicyHeader)
        ensures
            h@ == self.spec_header(),
    {
        PolicyHeader {
            name: String::from_str("X-Content-Type-Options"),
            value: String::from_str("nosniff"),
        }
    }
}

/// How strictly browsers must use HTTPS (Strict-Transport-Security).
pub enum HSTSPolicy {
    Enable(MaxAge),
    IncludeSubDomains(MaxAge),
    Preload(MaxAge),
}

impl Default for HSTSPolicy {
    fn default() -> (r: HSTSPolicy)
        ensures
            r == HSTSPolicy::Enable(HSTS_MAX_AGE_DEFAULT),
    {
        HSTSPolicy::Enable(HSTS_MAX_AGE_DEFAULT)
    }
}

impl HSTSPolicy {
    pub open spec fn spec_value(&self) -> Seq<char> {
        match self {
            HSTSPolicy::Enable(m) => max_age_text(*m),
            HSTSPolicy::IncludeSubDomains(m) => max_age_text(*m) + " ; includeSubDomains"@,
            HSTSPolicy::Preload(m) => max_age_text(*m) + " ; preload"@,
        }
    }

    pub open spec fn spec_header(&self) -> (Seq<char>, Seq<char>) {
        (hsts_name(), self.spec_value())
    }

    /// The Strict-Transport-Security header for this policy.
    pub fn header(&self) -> (h: PolicyHeader)
        ensures
            h@ == self.spec_header(),
    {
        let value = match self {
            HSTSPolicy::Enable(m) => max_age_string(*m),
            HSTSPolicy::IncludeSubDomains(m) => max_age_string(*m).concat(" ; includeSubDomains"),
            HSTSPolicy::Preload(m) => max_age_string(*m).concat(" ; preload"),
        };
        PolicyHeader { name: String::from_str("Strict-Transport-Security"), value }
    }
}

/// Who may put the page in a frame (X-Frame-Options).
pub enum FramePolicy {
    SameOrigin,
    Deny,
    AllowFrom(PolicyUri),
}

impl Default for FramePolicy {
    fn default() -> (r: FramePolicy)
        ensures
            r == FramePolicy::SameOrigin,
    {
        FramePolicy::SameOrigin
    }
}

impl FramePolicy {
    pub open spec fn spec_value(&self) -> Seq<char> {
        match self {
            FramePolicy::SameOrigin => "SAMEORIGIN"@,
            FramePolicy::Deny => "DENY"@,
            FramePolicy::AllowFrom(u) => "ALLOW-FROM "@ + u@,
        }
    }

    pub open spec fn spec_header(&self) -> (Seq<char>, Seq<char>) {
        (frame_name(), self.spec_value())
    }

    /// The X-Frame-Options header for this policy.
    pub fn header(&self) -> (h: PolicyHeader)
        ensures
            h@ == self.spec_header(),
    {
        let value = match self {
            FramePolicy::SameOrigin => String::from_str("SAMEORIGIN"),
            FramePolicy::Deny => String::from_str("DENY"),
            FramePolicy::AllowFrom(u) => String::from_str("ALLOW-FROM ").concat(u.as_str()),
        };
        PolicyHeader { name: String::from_str("X-Frame-Options"), value }
    }
}

/// The browser's cross-site scripting filter (X-XSS-Protection).
pub enum XSSPolicy {
    Disable,
    Enable,
    EnableBlock,
    EnableReport(PolicyUri),
}

impl Default for XSSPolicy {
    fn default() -> (r: XSSPolicy)
        ensures
            r == XSSPolicy::EnableBlock,
    {
        XSSPolicy::EnableBlock
    }
}

impl XSSPolicy {
    pub open spec fn spec_value(&self) -> Seq<char> {
        match self {
            XSSPolicy::Disable => "0"@,
            XSSPolicy::Enable => "1"@,
            XSSPolicy::EnableBlock => "1; mode=block"@,
            XSSPolicy::EnableReport(u) => "1; report="@ + u@,
        }
    }

    pub open spec fn spec_header(&self) -> (Seq<char>, Seq<char>) {
        (xss_name(), self.spec_value())
    }

    /// The X-XSS-Protection header for this policy.
    pub fn header(&self) -> (h: PolicyHeader)
        ensures
            h@ == self.spec_header(),
    {
        let value = match self {
            XSSPolicy::Disable => String::from_str("0"),
            XSSPolicy::Enable => String::from_str("1"),
            XSSPolicy::EnableBlock => String::from_str("1; mode=block"),
            XSSPolicy::EnableReport(u) => String::from_str("1; report=").concat(u.as_str()),
        };
        PolicyHeader { name: String::from_str("X-XSS-Protection"), value }
    }
}

} // verus!
