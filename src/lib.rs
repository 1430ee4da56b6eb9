//! Security headers for HTTP responses: typed policies for each header, their
//! wire encoding, a policy set with defaults, and the rule that decides which
//! headers a response receives.

mod helmet;
mod laws;
mod policy;
mod sink;
mod text;
mod uri;

pub use helmet::{Helmet, HelmetView};
pub use laws::{
    lemma_apply_idempotent, lemma_encoding_deterministic, lemma_launch_guard,
    lemma_transport_exclusive,
};
pub use policy::{
    ExpectCTPolicy, FramePolicy, HSTSPolicy, MaxAge, NoSniffPolicy, PolicyHeader, ReferrerPolicy,
    XSSPolicy, EXPECTCT_MAX_AGE_DEFAULT, HSTS_MAX_AGE_DEFAULT,
};
pub use sink::{lemma_write_all_twice, HeaderSink};
pub use text::decimal_text;
pub use uri::PolicyUri;
