//! Properties that relate several operations of the library, proved over the
//! specifications the operations themselves meet.
use vstd::prelude::*;
use crate::cache::CachedField;
use crate::cache::absorbed_all;
use crate::cache::default_view;
use crate::cache::most_recent;
use crate::chart::CHART_HEIGHT;
use crate::chart::group_count;
use crate::chart::group_len;
use crate::chart::group_sum;
use crate::chart::point_height;
use crate::chart::seq_max;
use crate::chart::chart_points;
use crate::panels::heights;
use crate::chart::lemma_seq_max;
use crate::connection::LinkAction;
use crate::connection::LinkEvent;
use crate::connection::LinkState;
use crate::connection::MAX_RETRIES;
use crate::connection::event_spec;
use crate::connection::next_spec;
use crate::layout::centered;
use crate::model::NewUiStruct;
use crate::surface::is_picture;
use crate::surface::loaded;
use crate::surface::raw_of;
use crate::surface::lemma_load_raw;

verus! {

/// However many live readings arrive, each cached field reads back as the
/// value of the most recent reading that carried it, and as its default only
/// while none has.
pub proof fn law_cache_keeps_latest(rs: Seq<NewUiStruct>, f: CachedField)
    ensures
        absorbed_all(default_view(), rs)[f] == most_recent(rs, f),
    decreases rs.len(),
{
    if rs.len() > 0 {
        law_cache_keeps_latest(rs.drop_last(), f);
    }
}

/// A full repaint loses nothing: the snapshot taken before it, loaded over
/// whatever the static layout drew, gives back the picture as it was, so every
/// widget shown before the repaint is still shown after it.
pub proof fn law_repaint_restores_picture(before: Seq<Seq<bool>>, layout: Seq<Seq<bool>>)
    requires
        is_picture(before),
        is_picture(layout),
    ensures
        loaded(layout, raw_of(before)) == before,
{
    lemma_load_raw(layout, before);
}

/// A chart point whose samples all equal the maximum sits at the full chart
/// height, when the maximum is positive.
pub proof fn law_peak_at_full_height(data: Seq<i32>, k: int)
    requires
        data.len() > 0,
        0 <= k < group_count(data.len() as int),
        seq_max(data) > 0,
        group_sum(data, k) == group_len(data, k) * seq_max(data),
    ensures
        point_height(data, k) == CHART_HEIGHT,
{
    let d = group_len(data, k) * seq_max(data);
    assert(d > 0) by (nonlinear_arith)
        requires
            d == group_len(data, k) * seq_max(data),
            group_len(data, k) >= 1,
            seq_max(data) > 0,
    ;
    assert((2 * (d * 45) + d) / (2 * d) == 45) by (nonlinear_arith)
        requires
            d > 0,
    ;
}

/// With no negative sample and a positive maximum, every chart point lies
/// between the baseline and the full chart height.
pub proof fn law_points_within_chart(data: Seq<i32>, k: int)
    requires
        data.len() > 0,
        0 <= k < group_count(data.len() as int),
        seq_max(data) > 0,
        forall|i: int| 0 <= i < data.len() ==> data[i] >= 0,
    ensures
        0 <= point_height(data, k) <= CHART_HEIGHT,
{
    lemma_seq_max(data);
    let m = seq_max(data);
    let c = group_len(data, k);
    let s = group_sum(data, k);
    assert(0 <= s <= c * m) by {
        if 2 * k + 1 < data.len() {
            assert(data[2 * k] <= m && data[2 * k + 1] <= m);
        } else {
            assert(data[2 * k] <= m);
        }
    }
    let d = c * m;
    assert(d > 0) by (nonlinear_arith)
        requires
            d == c * m,
            c >= 1,
            m > 0,
    ;
    assert(0 <= (2 * (s * 45) + d) / (2 * d) <= 45) by (nonlinear_arith)
        requires
            d > 0,
            0 <= s <= d,
    ;
}

/// For samples none of which is below zero, chart point `k` sits exactly at
/// (151 + k, 120 - its height): the cut-off at the chart's reach never applies.
pub proof fn law_chart_points_exact(data: Seq<i32>, k: int)
    requires
        0 < data.len() <= 0x10000,
        0 <= k < group_count(data.len() as int),
        forall|i: int| 0 <= i < data.len() ==> data[i] >= 0,
    ensures
        chart_points(heights(data))[k] == ((151 + k) as i32, (120 - point_height(data, k)) as i32),
        0 <= point_height(data, k) <= CHART_HEIGHT,
{
    lemma_seq_max(data);
    if seq_max(data) > 0 {
        law_points_within_chart(data, k);
    } else {
        let i = choose|i: int| 0 <= i < data.len() && data[i] == seq_max(data);
        assert(data[i] >= 0);
        assert(seq_max(data) == 0);
    }
}

/// A one-character value sits 9 pixels right of a three-character one, and a
/// four-character value 4 pixels left of it, in every badge.
pub proof fn law_centering(base: int)
    ensures
        centered(base, 1) == centered(base, 3) + 9,
        centered(base, 4) == centered(base, 3) - 4,
{
}

/// One failed round from state (s, n): the attempt, then either a refused
/// handshake or a session that is accepted and then ends.
pub open spec fn failed_round(s: LinkState, n: nat, refused: bool) -> (LinkState, nat) {
    let (s1, n1, _a) = next_spec(s, n);
    if refused {
        let (s2, n2, _b) = event_spec(s1, n1, LinkEvent::HandshakeRejected);
        (s2, n2)
    } else {
        let (s2, n2, _b) = event_spec(s1, n1, LinkEvent::HandshakeAccepted);
        let (s3, n3, _c) = event_spec(s2, n2, LinkEvent::SessionEnded);
        (s3, n3)
    }
}

/// The state after the failed rounds `fails`, from a fresh lifecycle.
pub open spec fn after_failures(fails: Seq<bool>) -> (LinkState, nat)
    decreases fails.len(),
{
    if fails.len() == 0 {
        (LinkState::Disconnected, 0)
    } else {
        let (s, n) = after_failures(fails.drop_last());
        failed_round(s, n, fails.last())
    }
}

/// Up to six consecutive failures, each round starts with a connection
/// attempt and leaves the count at the number of failures.
pub proof fn law_failures_counted(fails: Seq<bool>)
    requires
        fails.len() <= MAX_RETRIES + 1,
    ensures
        after_failures(fails) == (LinkState::Disconnected, fails.len()),
        fails.len() <= MAX_RETRIES ==> next_spec(LinkState::Disconnected, fails.len()).2
            == LinkAction::Connect,
    decreases fails.len(),
{
    if fails.len() > 0 {
        law_failures_counted(fails.drop_last());
    }
}

/// After six consecutive failures the next step shows the terminal message,
/// and from then on no step, whatever the caller reports, attempts a
/// connection again.
pub proof fn law_retry_ceiling(fails: Seq<bool>, e: LinkEvent)
    requires
        fails.len() == MAX_RETRIES + 1,
    ensures
        next_spec(after_failures(fails).0, after_failures(fails).1) == (
            LinkState::Terminated,
            (MAX_RETRIES + 1) as nat,
            LinkAction::ShowTerminal,
        ),
        next_spec(LinkState::Terminated, (MAX_RETRIES + 1) as nat) == (
            LinkState::Terminated,
            (MAX_RETRIES + 1) as nat,
            LinkAction::Nothing,
        ),
        event_spec(LinkState::Terminated, (MAX_RETRIES + 1) as nat, e) == (
            LinkState::Terminated,
            (MAX_RETRIES + 1) as nat,
            LinkAction::Nothing,
        ),
{
    law_failures_counted(fails);
}

} // verus!
