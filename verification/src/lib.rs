//! A single-route reverse proxy core: a per-client-IP rate limiter with a
//! cooldown penalty, a background pruning sweep, upstream URL construction,
//! and the gateway's response envelopes.

mod clock;
mod config;
mod forward;
mod gateway;
mod laws;
mod limiter;
mod table;

pub use clock::get_time;
pub use config::{domain, endpoint, COOLDOWN, PRUNE_TIME, RATELIMIT};
pub use forward::{
    build_upstream_url, plaintext_redirect, spec_redirect_location, spec_upstream_url,
    ForwardRequest, ForwardResult, RedirectReply,
};
pub use gateway::{
    internal_error_body, ratelimit_body, render_response, spec_decimal, spec_digit,
    spec_ratelimit_body, spec_response_body, spec_response_content_type, spec_response_status,
    u64_to_decimal, GatewayResponse, RequestOutcome,
};
pub use laws::{
    decision_at, lemma_cooldown_elapsed_admits, lemma_cooldown_rejects,
    lemma_idle_pruned_then_fresh, lemma_no_overadmission, lemma_over_limit_rejected,
    lemma_retry_after_decreases, lemma_window_admits_all, run,
};
pub use limiter::{
    decide, keep_entry, spec_decide, spec_keep, spec_next, Decision, Ratelimit, RatelimitConfig,
    WINDOW_MS,
};
pub use table::RatelimitTable;
