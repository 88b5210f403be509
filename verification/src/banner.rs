//! The text shown when the service starts.
use vstd::prelude::*;

use crate::config::{kind_name, DataSourceKind};
use crate::state::AppState;
use crate::text::{decimal, push_decimal};

verus! {

/// How the data source is shown: `Null`, or the kind and its location.
pub open spec fn data_info(kind: DataSourceKind, location: Seq<char>) -> Seq<char> {
    match kind {
        DataSourceKind::Null => "Null"@,
        _ => kind_name(kind) + "("@ + location + ")"@,
    }
}

/// One line per issuer, each after a line break.
pub open spec fn issuer_lines(issuers: Seq<String>) -> Seq<char>
    decreases issuers.len(),
{
    if issuers.len() == 0 {
        Seq::empty()
    } else {
        issuer_lines(issuers.drop_last()) + "\n - "@ + issuers.last()@
    }
}

/// How the accepted issuers are shown.
pub open spec fn issuers_info(issuers: Option<Vec<String>>) -> Seq<char> {
    match issuers {
        Some(list) => issuer_lines(list@),
        None => "no issuers accepted"@,
    }
}

/// The banner of a state.
pub open spec fn banner_text(state: AppState) -> Seq<char> {
    "--- TMS Resources Provider ---\nVersion: "@ + state.version@
        + "\nCommit: "@ + state.commit@
        + "\nRust version: "@ + state.rust_version@
        + "\n\nUsing Data source: "@ + data_info(state.config.source_kind, state.config.source_location@)
        + "\nIssuers: "@ + issuers_info(state.config.jwt_issuers)
        + "\nListening at: "@ + state.config.address@ + ":"@ + decimal(state.config.port as nat) + "\n"@
}

/// The banner: version, commit and Rust version, the data source, the
/// accepted issuers and the address the service listens at.
pub fn display_banner(state: &AppState) -> (r: String)
    ensures
        r@ == banner_text(*state),
{
    let mut out = String::from_str("--- TMS Resources Provider ---\nVersion: ");
    out.append(state.version.as_str());
    out.append("\nCommit: ");
    out.append(state.commit.as_str());
    out.append("\nRust version: ");
    out.append(state.rust_version.as_str());
    out.append("\n\nUsing Data source: ");
    match state.config.source_kind {
        DataSourceKind::Null => out.append("Null"),
        _ => {
            out.append(state.config.source_kind.name());
            out.append("(");
            out.append(state.config.source_location.as_str());
            out.append(")");
        },
    }
    out.append("\nIssuers: ");
    match &state.config.jwt_issuers {
        Some(list) => {
            let ghost start = out@;
            let n = list.len();
            for i in 0..n
                invariant
                    n == list@.len(),
                    out@ == start + issuer_lines(list@.take(i as int)),
            {
                out.append("\n - ");
                out.append(list[i].as_str());
                proof {
                    assert(list@.take(i + 1).drop_last() =~= list@.take(i as int));
                }
            }
            assert(list@.take(n as int) =~= list@);
        },
        None => out.append("no issuers accepted"),
    }
    out.append("\nListening at: ");
    out.append(state.config.address.as_str());
    out.append(":");
    push_decimal(&mut out, state.config.port as u64);
    out.append("\n");
    out
}

/// An empty list of issuers shows nothing after `Issuers: `.
pub proof fn law_no_issuer_lines(list: Vec<String>)
    requires
        list@.len() == 0,
    ensures
        issuers_info(Some(list)) == Seq::<char>::empty(),
{
}

/// One more issuer adds one line, `\n - ` and the issuer, after the others.
pub proof fn law_issuer_line_added(list: Vec<String>, longer: Vec<String>, issuer: String)
    requires
        longer@ == list@.push(issuer),
    ensures
        issuers_info(Some(longer)) == issuers_info(Some(list)) + "\n - "@ + issuer@,
{
    assert(longer@.drop_last() =~= list@);
}

/// Two banners that differ only in one more accepted issuer differ in
/// length by that issuer's line: four characters and the issuer.
pub proof fn law_banner_grows_by_issuer_line(s1: AppState, s2: AppState, list: Vec<String>, longer: Vec<String>, issuer: String)
    requires
        s1.version@ == s2.version@,
        s1.commit@ == s2.commit@,
        s1.rust_version@ == s2.rust_version@,
        s1.config.source_kind == s2.config.source_kind,
        s1.config.source_location@ == s2.config.source_location@,
        s1.config.address@ == s2.config.address@,
        s1.config.port == s2.config.port,
        s1.config.jwt_issuers == Some(list),
        s2.config.jwt_issuers == Some(longer),
        longer@ == list@.push(issuer),
    ensures
        banner_text(s2).len() == banner_text(s1).len() + 4 + issuer@.len(),
{
    law_issuer_line_added(list, longer, issuer);
    reveal_strlit("\n - ");
}

} // verus!
