use vstd::prelude::*;
use crate::policy::{
    ExpectCTPolicy, FramePolicy, HSTSPolicy, NoSniffPolicy, PolicyHeader, ReferrerPolicy,
    XSSPolicy, HSTS_MAX_AGE_DEFAULT,
};
use crate::sink::{overwritten_by, write_all, HeaderSink};

verus! {

/// What a policy set holds: a policy or none for each header, the policy used
/// where Strict-Transport-Security is forced, and whether it is forced.
pub struct HelmetView {
    pub expect_ct: Option<ExpectCTPolicy>,
    pub no_sniff: Option<NoSniffPolicy>,
    pub xss_protect: Option<XSSPolicy>,
    pub frameguard: Option<FramePolicy>,
    pub hsts: Option<HSTSPolicy>,
    pub force_hsts_policy: HSTSPolicy,
    pub force_hsts: bool,
    pub referrer: Option<ReferrerPolicy>,
}

impl HelmetView {
    /// The defaults: X-Content-Type-Options, X-XSS-Protection and
    /// X-Frame-Options by their default policies, no other header, a forced
    /// policy of one year, not forced.
    pub open spec fn initial() -> HelmetView {
        HelmetView {
            expect_ct: None,
            no_sniff: Some(NoSniffPolicy::Enable),
            xss_protect: Some(XSSPolicy::EnableBlock),
            frameguard: Some(FramePolicy::SameOrigin),
            hsts: None,
            force_hsts_policy: HSTSPolicy::Enable(HSTS_MAX_AGE_DEFAULT),
            force_hsts: false,
            referrer: None,
        }
    }

    /// The headers other than Strict-Transport-Security, in the order in which
    /// they are set.
    pub open spec fn leading_headers(&self) -> Seq<(Seq<char>, Seq<char>)> {
        (match self.no_sniff {
            Some(p) => seq![p.spec_header()],
            None => seq![],
        }) + (match self.xss_protect {
            Some(p) => seq![p.spec_header()],
            None => seq![],
        }) + (match self.frameguard {
            Some(p) => seq![p.spec_header()],
            None => seq![],
        }) + (match self.expect_ct {
            Some(p) => seq![p.spec_header()],
            None => seq![],
        }) + (match self.referrer {
            Some(p) => seq![p.spec_header()],
            None => seq![],
        })
    }

    /// The Strict-Transport-Security header, if any: the explicit policy where
    /// one is set, else the forced one where forcing is active.
    pub open spec fn transport_headers(&self) -> Seq<(Seq<char>, Seq<char>)> {
        match self.hsts {
            Some(p) => seq![p.spec_header()],
            None => if self.force_hsts {
                seq![self.force_hsts_policy.spec_header()]
            } else {
                seq![]
            },
        }
    }

    /// Every header that a response receives, in the order in which they are set.
    pub open spec fn headers(&self) -> Seq<(Seq<char>, Seq<char>)> {
        self.leading_headers() + self.transport_headers()
    }

    /// The policy set after startup: forcing becomes active where the
    /// transport is encrypted, the environment is not for development, and no
    /// explicit Strict-Transport-Security policy is set.
    pub open spec fn launched(self, tls_enabled: bool, is_dev: bool) -> HelmetView {
        HelmetView {
            force_hsts: self.force_hsts || (tls_enabled && !is_dev && self.hsts is None),
            ..self
        }
    }
}

/// A policy set for the security headers of every response.
pub struct Helmet {
    expect_ct_policy: Option<ExpectCTPolicy>,
    no_sniff_policy: Option<NoSniffPolicy>,
    xss_protect_policy: Option<XSSPolicy>,
    frameguard_policy: Option<FramePolicy>,
    hsts_policy: Option<HSTSPolicy>,
    force_hsts_policy: HSTSPolicy,
    force_hsts: bool,
    referrer_policy: Option<ReferrerPolicy>,
}

impl View for Helmet {
    type V = HelmetView;

    closed spec fn view(&self) -> HelmetView {
        HelmetView {
            expect_ct: self.expect_ct_policy,
            no_sniff: self.no_sniff_policy,
            xss_protect: self.xss_protect_policy,
            frameguard: self.frameguard_policy,
            hsts: self.hsts_policy,
            force_hsts_policy: self.force_hsts_policy,
            force_hsts: self.force_hsts,
            referrer: self.referrer_policy,
        }
    }
}

impl Helmet {
    /// Returns a policy set with X-Content-Type-Options, X-Frame-Options and
    /// X-XSS-Protection enabled by their default policies, and nothing forced.
    pub fn default() -> (r: Helmet)
        ensures
            r@ == HelmetView::initial(),
    {
        Helmet {
            expect_ct_policy: None,
            no_sniff_policy: Some(NoSniffPolicy::default()),
            frameguard_policy: Some(FramePolicy::default()),
            xss_protect_policy: Some(XSSPolicy::default()),
            hsts_policy: None,
            force_hsts_policy: HSTSPolicy::default(),
            force_hsts: false,
            referrer_policy: None,
        }
    }

    /// The same as `default`.
    pub fn new() -> (r: Helmet)
        ensures
            r@ == HelmetView::initial(),
    {
        Helmet::default()
    }

    /// Sets X-XSS-Protection to `policy`; `None` disables the header.
    pub fn xss_protect(self, policy: Option<XSSPolicy>) -> (r: Helmet)
        ensures
            r@ == (HelmetView { xss_protect: policy, ..self@ }),
    {
        Helmet { xss_protect_policy: policy, ..self }
    }

    /// Sets X-Content-Type-Options to `policy`; `None` disables the header.
    pub fn no_sniff(self, policy: Option<NoSniffPolicy>) -> (r: Helmet)
        ensures
            r@ == (HelmetView { no_sniff: policy, ..self@ }),
    {
        Helmet { no_sniff_policy: policy, ..self }
    }

    /// Sets X-Frame-Options to `policy`; `None` disables the header.
    pub fn frameguard(self, policy: Option<FramePolicy>) -> (r: Helmet)
        ensures
            r@ == (HelmetView { frameguard: policy, ..self@ }),
    {
        Helmet { frameguard_policy: policy, ..self }
    }

    /// Sets Strict-Transport-Security to `policy`; `None` disables the
    /// explicit header.
    pub fn hsts(self, policy: Option<HSTSPolicy>) -> (r: Helmet)
        ensures
            r@ == (HelmetView { hsts: policy, ..self@ }),
    {
        Helmet { hsts_policy: policy, ..self }
    }

    /// Sets Expect-CT to `policy`; `None` disables the header.
    pub fn expect_ct(self, policy: Option<ExpectCTPolicy>) -> (r: Helmet)
        ensures
            r@ == (HelmetView { expect_ct: policy, ..self@ }),
    {
        Helmet { expect_ct_policy: policy, ..self }
    }

    /// Sets Referrer-Policy to `policy`; `None` disables the header.
    pub fn referrer_policy(self, policy: Option<ReferrerPolicy>) -> (r: Helmet)
        ensures
            r@ == (HelmetView { referrer: policy, ..self@ }),
    {
        Helmet { referrer_policy: policy, ..self }
    }

    /// Whether Strict-Transport-Security is forced.
    pub fn forcing_hsts(&self) -> (r: bool)
        ensures
            r == self@.force_hsts,
    {
        self.force_hsts
    }
    /// Records, at startup, whether the transport is encrypted and whether the
    /// environment is for development. Forcing of Strict-Transport-Security
    /// becomes active where the transport is encrypted, the environment is not
    /// for development, and no explicit policy is set; otherwise nothing
    /// changes. Returns whether it became active by this call's facts, so that
    /// the caller can warn.
    pub fn on_launch(&mut self, tls_enabled: bool, is_dev: bool) -> (forced: bool)
        ensures
            final(self)@ == old(self)@.launched(tls_enabled, is_dev),
            forced == (tls_enabled && !is_dev && old(self)@.hsts is None),
    {
        let forced = tls_enabled && !is_dev && self.hsts_policy.is_none();
        if forced {
            self.force_hsts = true;
        }
        forced
    }

    /// The headers that a response receives, in the order in which they are
    /// set: X-Content-Type-Options, X-XSS-Protection, X-Frame-Options,
    /// Expect-CT, Referrer-Policy, then Strict-Transport-Security.
    pub fn headers(&self) -> (r: Vec<PolicyHeader>)
        ensures
            r@.map_values(|h: PolicyHeader| h@) == self@.headers(),
    {
        let mut r: Vec<PolicyHeader> = Vec::new();
        if let Some(p) = &self.no_sniff_policy {
            r.push(p.header());
        }
        if let Some(p) = &self.xss_protect_policy {
            r.push(p.header());
        }
        if let Some(p) = &self.frameguard_policy {
            r.push(p.header());
        }
        if let Some(p) = &self.expect_ct_policy {
            r.push(p.header());
        }
        if let Some(p) = &self.referrer_policy {
            r.push(p.header());
        }
        assert(r@.map_values(|h: PolicyHeader| h@) =~= self@.leading_headers());
        if let Some(p) = &self.hsts_policy {
            r.push(p.header());
        } else if self.force_hsts {
            r.push(self.force_hsts_policy.header());
        }
        assert(r@.map_values(|h: PolicyHeader| h@) =~= self@.headers());
        r
    }

    /// Sets each of this policy set's headers on `sink`, in the order of
    /// `headers`, overwriting a header already present. Returns those that
    /// found their name present, in order, so that the caller can warn.
    pub fn apply(&self, sink: &mut HeaderSink) -> (overwritten: Vec<PolicyHeader>)
        ensures
            final(sink)@ == write_all(old(sink)@, self@.headers()),
            overwritten@.map_values(|h: PolicyHeader| h@) == overwritten_by(
                old(sink)@,
                self@.headers(),
            ),
    {
        let hs = self.headers();
        let ghost all = hs@.map_values(|h: PolicyHeader| h@);
        let mut overwritten: Vec<PolicyHeader> = Vec::new();
        let mut i: usize = 0;
        while i < hs.len()
            invariant
                i <= hs@.len(),
                all == hs@.map_values(|h: PolicyHeader| h@),
                all == self@.headers(),
                sink@ == write_all(old(sink)@, all.take(i as int)),
                overwritten@.map_values(|h: PolicyHeader| h@) == overwritten_by(
                    old(sink)@,
                    all.take(i as int),
                ),
            decreases hs.len() - i,
        {
            let h = &hs[i];
            let found = sink.set_header(h.name.clone(), h.value.clone());
            if found {
                overwritten.push(PolicyHeader { name: h.name.clone(), value: h.value.clone() });
            }
            proof {
                assert(all.take(i + 1).drop_last() =~= all.take(i as int));
                assert(all.take(i + 1).last() == all[i as int]);
            }
            i = i + 1;
            assert(overwritten@.map_values(|h: PolicyHeader| h@) =~= overwritten_by(
                old(sink)@,
                all.take(i as int),
            ));
        }
        assert(all.take(hs@.len() as int) =~= all);
        overwritten
    }
}

} // verus!
