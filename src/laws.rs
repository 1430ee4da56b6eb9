use vstd::prelude::*;
use crate::helmet::HelmetView;
use crate::policy::{
    expect_ct_name, frame_name, hsts_name, no_sniff_name, referrer_name, xss_name, ExpectCTPolicy,
    FramePolicy, HSTSPolicy, NoSniffPolicy, ReferrerPolicy, XSSPolicy,
};
use crate::sink::{overwritten_by, write_all};

verus! {

/// Encoding is a function of the policy alone: equal policies of each header
/// give equal names and values.
pub proof fn lemma_encoding_deterministic(
    a1: ReferrerPolicy,
    a2: ReferrerPolicy,
    b1: ExpectCTPolicy,
    b2: ExpectCTPolicy,
    c1: NoSniffPolicy,
    c2: NoSniffPolicy,
    d1: HSTSPolicy,
    d2: HSTSPolicy,
    e1: FramePolicy,
    e2: FramePolicy,
    f1: XSSPolicy,
    f2: XSSPolicy,
)
    ensures
        a1 == a2 ==> a1.spec_header() == a2.spec_header(),
        b1 == b2 ==> b1.spec_header() == b2.spec_header(),
        c1 == c2 ==> c1.spec_header() == c2.spec_header(),
        d1 == d2 ==> d1.spec_header() == d2.spec_header(),
        e1 == e2 ==> e1.spec_header() == e2.spec_header(),
        f1 == f2 ==> f1.spec_header() == f2.spec_header(),
{
}

proof fn lemma_write_all_keeps_keys(m: Map<Seq<char>, Seq<char>>, hs: Seq<(Seq<char>, Seq<char>)>)
    ensures
        forall|k: Seq<char>| m.contains_key(k) ==> #[trigger] write_all(m, hs).contains_key(k),
        forall|i: int| 0 <= i < hs.len() ==> write_all(m, hs).contains_key(#[trigger] hs[i].0),
    decreases hs.len(),
{
    if hs.len() > 0 {
        lemma_write_all_keeps_keys(m, hs.drop_last());
        assert forall|k: Seq<char>| m.contains_key(k) implies #[trigger] write_all(
            m,
            hs,
        ).contains_key(k) by {
            assert(write_all(m, hs.drop_last()).contains_key(k));
        }
        assert forall|i: int| 0 <= i < hs.len() implies write_all(m, hs).contains_key(
            #[trigger] hs[i].0,
        ) by {
            if i < hs.len() - 1 {
                assert(hs.drop_last()[i] == hs[i]);
            }
        }
    }
}

proof fn lemma_all_overwritten(
    m: Map<Seq<char>, Seq<char>>,
    hs: Seq<(Seq<char>, Seq<char>)>,
    n: int,
)
    requires
        0 <= n <= hs.len(),
        forall|i: int| 0 <= i < hs.len() ==> m.contains_key(#[trigger] hs[i].0),
    ensures
        overwritten_by(m, hs.take(n)) == hs.take(n),
    decreases n,
{
    if n > 0 {
        lemma_all_overwritten(m, hs, n - 1);
        assert(hs.take(n).drop_last() =~= hs.take(n - 1));
        lemma_write_all_keeps_keys(m, hs.take(n - 1));
        assert(m.contains_key(hs[n - 1].0));
        assert(overwritten_by(m, hs.take(n)) =~= hs.take(n));
    }
}

/// Applying a policy set a second time to the sink that the first application
/// left changes no header, and finds every one of its headers present.
pub proof fn lemma_apply_idempotent(h: HelmetView, m: Map<Seq<char>, Seq<char>>)
    ensures
        write_all(write_all(m, h.headers()), h.headers()) == write_all(m, h.headers()),
        overwritten_by(write_all(m, h.headers()), h.headers()) == h.headers(),
{
    let hs = h.headers();
    crate::sink::lemma_write_all_twice(m, hs);
    lemma_write_all_keeps_keys(m, hs);
    lemma_all_overwritten(write_all(m, hs), hs, hs.len() as int);
    assert(hs.take(hs.len() as int) =~= hs);
}

proof fn lemma_header_names_differ()
    ensures
        no_sniff_name() != hsts_name(),
        xss_name() != hsts_name(),
        frame_name() != hsts_name(),
        expect_ct_name() != hsts_name(),
        referrer_name() != hsts_name(),
{
    reveal_strlit("Strict-Transport-Security");
    reveal_strlit("X-Content-Type-Options");
    reveal_strlit("X-XSS-Protection");
    reveal_strlit("X-Frame-Options");
    reveal_strlit("Expect-CT");
    reveal_strlit("Referrer-Policy");
    assert(hsts_name().len() == 25);
    assert(no_sniff_name().len() == 22);
    assert(xss_name().len() == 16);
    assert(frame_name().len() == 15);
    assert(expect_ct_name().len() == 9);
    assert(referrer_name().len() == 15);
}

proof fn lemma_leading_not_transport(h: HelmetView)
    ensures
        forall|i: int|
            0 <= i < h.leading_headers().len() ==> #[trigger] h.leading_headers()[i].0
                != hsts_name(),
{
    lemma_header_names_differ();
}

/// At startup, a policy set that is not yet forcing Strict-Transport-Security
/// starts to exactly when the transport is encrypted, the environment is not
/// for development, and no explicit policy is set. A policy set with neither
/// an explicit policy nor forcing sets no Strict-Transport-Security header.
pub proof fn lemma_launch_guard(h: HelmetView, tls_enabled: bool, is_dev: bool)
    ensures
        !h.force_hsts ==> (h.launched(tls_enabled, is_dev).force_hsts <==> (tls_enabled && !is_dev
            && h.hsts is None)),
        h.hsts is None && !h.force_hsts ==> forall|i: int|
            0 <= i < h.headers().len() ==> #[trigger] h.headers()[i].0 != hsts_name(),
{
    lemma_leading_not_transport(h);
}

/// A response receives at most one Strict-Transport-Security header, and
/// where an explicit policy is set, that header is the explicit one.
pub proof fn lemma_transport_exclusive(h: HelmetView)
    ensures
        forall|i: int, j: int|
            0 <= i < h.headers().len() && 0 <= j < h.headers().len() && #[trigger] h.headers()[i].0
                == hsts_name() && #[trigger] h.headers()[j].0 == hsts_name() ==> i == j,
        h.hsts is Some ==> forall|i: int|
            0 <= i < h.headers().len() && #[trigger] h.headers()[i].0 == hsts_name()
                ==> h.headers()[i] == h.hsts->0.spec_header(),
{
    lemma_leading_not_transport(h);
}

} // verus!
