//! The `ping` and `uptime` commands.
use vstd::prelude::*;

use crate::format::{decimal, push_decimal};
use crate::text::join;

verus! {

/// `std::time::Instant`, a point on the monotonic clock.
#[verifier::external_type_specification]
#[verifier::external_body]
pub struct ExInstant(std::time::Instant);

/// `Instant::now`: the current time; nothing is known of its value.
#[verifier::external_body]
fn now() -> std::time::Instant {
    std::time::Instant::now()
}

/// `Instant::elapsed`: the time passed since `start`; the clock decides it,
/// and nothing is known of its value.
#[verifier::external_body]
fn elapsed(start: &std::time::Instant) -> std::time::Duration {
    start.elapsed()
}

/// `Duration::as_secs`: the whole seconds of `d`. A `Duration` is opaque
/// here, so nothing is stated of the result.
#[verifier::external_body]
fn whole_seconds(d: &std::time::Duration) -> u64 {
    d.as_secs()
}

/// Qualifiers that decide whether `ping` may run, most specific first.
pub open spec fn ping_permissions() -> Seq<Seq<char>> {
    seq!["core.info.ping"@, "core.info"@, "core"@, "*"@]
}

/// Qualifiers that decide whether `uptime` may run, most specific first.
pub open spec fn uptime_permissions() -> Seq<Seq<char>> {
    seq!["core.info.uptime"@, "core.info"@, "core"@, "*"@]
}

/// The `ping` command: measures the bot's network latency.
pub struct CmdPing;

impl CmdPing {
    /// Qualifiers whose rules decide whether the command may run, most specific first.
    pub fn permissions(&self) -> (res: &'static [&'static str])
        ensures
            res@.map_values(|p: &str| p@) == ping_permissions(),
    {
        let res: &'static [&'static str] = &["core.info.ping", "core.info", "core", "*"];
        assert(res@.map_values(|p: &str| p@) =~= ping_permissions());
        res
    }

    /// Whether the command runs when no rule applies to it.
    pub fn default_permission(&self) -> (res: bool)
        ensures
            res,
    {
        true
    }
}

/// The first state of the latency reply, before the measurement.
pub fn latency_measuring() -> (res: (String, String))
    ensures
        res.0@ == "Latency: measuring"@,
        res.1@ == "Latency: <i>measuring</i>"@,
{
    (String::from_str("Latency: measuring"), String::from_str("Latency: <i>measuring</i>"))
}

/// The latency reply once the round trip took `elapsed_ms` milliseconds.
pub fn latency_reply(elapsed_ms: u128) -> (res: (String, String))
    ensures
        res.0@ == "Latency: "@ + decimal(elapsed_ms as nat) + "ms"@,
        res.1@ == "Latency: <b>"@ + decimal(elapsed_ms as nat) + "ms</b>"@,
{
    let mut plain = String::from_str("Latency: ");
    push_decimal(&mut plain, elapsed_ms);
    plain.append("ms");
    let mut html = String::from_str("Latency: <b>");
    push_decimal(&mut html, elapsed_ms);
    html.append("ms</b>");
    (plain, html)
}

/// The `uptime` command: tells how long the bot has been running.
pub struct CmdUptime(std::time::Instant);

impl CmdUptime {
    /// The command, counting from now.
    pub fn new() -> Self {
        CmdUptime(now())
    }

    /// Qualifiers whose rules decide whether the command may run, most specific first.
    pub fn permissions(&self) -> (res: &'static [&'static str])
        ensures
            res@.map_values(|p: &str| p@) == uptime_permissions(),
    {
        let res: &'static [&'static str] = &["core.info.uptime", "core.info", "core", "*"];
        assert(res@.map_values(|p: &str| p@) =~= uptime_permissions());
        res
    }

    /// Whether the command runs when no rule applies to it.
    pub fn default_permission(&self) -> (res: bool)
        ensures
            res,
    {
        true
    }

    /// The uptime reply: whatever the clock says, it is `uptime_reply` of the
    /// seconds elapsed since the command was made.
    pub fn report(&self) -> (res: (String, String))
        ensures
            exists|secs: u64|
                res.0@ == uptime_plain(secs as nat) && res.1@ == uptime_html(secs as nat),
    {
        let passed = elapsed(&self.0);
        let secs = whole_seconds(&passed);
        uptime_reply(secs)
    }
}

/// Days, hours, minutes and seconds of `total` seconds, largest unit first.
pub open spec fn uptime_units(total: nat) -> Seq<(Seq<char>, nat)> {
    seq![
        ("day"@, total / 60 / 60 / 24),
        ("hour"@, (total / 60 / 60) % 24),
        ("minute"@, (total / 60) % 60),
        ("second"@, total % 60),
    ]
}

/// The units with a non-zero count, in order.
pub open spec fn nonzero_units(units: Seq<(Seq<char>, nat)>) -> Seq<(Seq<char>, nat)>
    decreases units.len(),
{
    if units.len() == 0 {
        Seq::<(Seq<char>, nat)>::empty()
    } else {
        let earlier = nonzero_units(units.drop_last());
        if units.last().1 != 0 {
            earlier.push(units.last())
        } else {
            earlier
        }
    }
}

/// At most the first two elements.
pub open spec fn first_two<T>(s: Seq<T>) -> Seq<T> {
    if s.len() > 2 {
        s.take(2)
    } else {
        s
    }
}

/// A count with its unit, plural when above one.
pub open spec fn unit_text(unit: (Seq<char>, nat)) -> Seq<char> {
    decimal(unit.1) + " "@ + unit.0 + if unit.1 > 1 {
        "s"@
    } else {
        Seq::<char>::empty()
    }
}

/// The two largest non-zero units of `total` seconds, joined by " and ".
pub open spec fn uptime_text(total: nat) -> Seq<char> {
    join(first_two(nonzero_units(uptime_units(total))).map_values(|u: (Seq<char>, nat)| unit_text(u)), " and "@)
}

/// Plain-text uptime reply for `total` seconds.
pub open spec fn uptime_plain(total: nat) -> Seq<char> {
    if first_two(nonzero_units(uptime_units(total))).len() == 0 {
        "Merlin has just started."@
    } else {
        "Merlin has been up for "@ + uptime_text(total) + "."@
    }
}

/// HTML uptime reply for `total` seconds.
pub open spec fn uptime_html(total: nat) -> Seq<char> {
    if first_two(nonzero_units(uptime_units(total))).len() == 0 {
        "Merlin has just started."@
    } else {
        "Merlin has been up for <b>"@ + uptime_text(total) + "</b>"@
    }
}

/// The first of several parts is where their join starts.
proof fn lemma_join_starts_with_first(parts: Seq<Seq<char>>, sep: Seq<char>)
    requires
        parts.len() >= 1,
    ensures
        parts[0].is_prefix_of(join(parts, sep)),
{
    if parts.len() > 1 {
        assert((parts[0] + sep + join(parts.drop_first(), sep)).take(parts[0].len() as int) =~= parts[0]);
    }
}

/// Which units are shown when the first non-zero one is at `k`: the text
/// leads with that unit.
proof fn lemma_uptime_leads_with(total: nat, k: int)
    requires
        0 <= k < 4,
        forall|j: int| 0 <= j < k ==> #[trigger] uptime_units(total)[j].1 == 0,
        uptime_units(total)[k].1 != 0,
    ensures
        ("Merlin has been up for "@ + unit_text(uptime_units(total)[k])).is_prefix_of(uptime_plain(total)),
        ("Merlin has been up for <b>"@ + unit_text(uptime_units(total)[k])).is_prefix_of(uptime_html(total)),
        first_two(nonzero_units(uptime_units(total))).len() >= 1,
        first_two(nonzero_units(uptime_units(total)))[0] == uptime_units(total)[k],
{
    let u = uptime_units(total);
    reveal_with_fuel(nonzero_units, 5);
    assert(u.take(4) =~= u);
    assert(u.take(4).drop_last() =~= u.take(3));
    assert(u.take(3).drop_last() =~= u.take(2));
    assert(u.take(2).drop_last() =~= u.take(1));
    assert(u.take(1).drop_last() =~= u.take(0));
    let nz = nonzero_units(u);
    assert(nonzero_units(u.take(k + 1)) =~= seq![u[k]]) by {
        if k == 0 {
        } else if k == 1 {
            assert(u[0].1 == 0);
        } else if k == 2 {
            assert(u[0].1 == 0);
            assert(u[1].1 == 0);
        } else {
            assert(u[0].1 == 0);
            assert(u[1].1 == 0);
            assert(u[2].1 == 0);
        }
    }
    assert(nz.len() >= 1 && nz[0] == u[k]) by {
        if k == 0 {
            assert(nonzero_units(u.take(2)).len() >= 1 && nonzero_units(u.take(2))[0] == u[0]);
            assert(nonzero_units(u.take(3)).len() >= 1 && nonzero_units(u.take(3))[0] == u[0]);
        } else if k == 1 {
            assert(nonzero_units(u.take(3)).len() >= 1 && nonzero_units(u.take(3))[0] == u[1]);
        }
    }
    let ch = first_two(nz);
    assert(ch.len() >= 1 && ch[0] == u[k]);
    let texts = ch.map_values(|x: (Seq<char>, nat)| unit_text(x));
    lemma_join_starts_with_first(texts, " and "@);
    let t = uptime_text(total);
    assert(texts[0] == unit_text(u[k]));
    let p = "Merlin has been up for "@;
    let h = "Merlin has been up for <b>"@;
    assert((p + t + "."@).take((p + unit_text(u[k])).len() as int) =~= p + unit_text(u[k])) by {
        assert(t.take(unit_text(u[k]).len() as int) =~= unit_text(u[k]));
    }
    assert((h + t + "</b>"@).take((h + unit_text(u[k])).len() as int) =~= h + unit_text(u[k])) by {
        assert(t.take(unit_text(u[k]).len() as int) =~= unit_text(u[k]));
    }
}

/// A count and a unit as the reply shows them lead with the count, a space
/// and the unit's name.
proof fn lemma_unit_text_leads(n: nat, name: Seq<char>, shown: Seq<char>)
    requires
        shown == " "@ + name,
    ensures
        (decimal(n) + shown).is_prefix_of(unit_text((name, n))),
{
    assert(unit_text((name, n)).take((decimal(n) + shown).len() as int) =~= decimal(n) + shown);
}

/// The four units of an uptime are the days, hours, minutes and seconds it
/// is made of: counted back into seconds they give the total, and each but
/// the days is below the size of the next larger unit.
pub proof fn law_uptime_units_make_up_total(total: nat)
    ensures
        uptime_units(total).len() == 4,
        uptime_units(total)[0].0 == "day"@ && uptime_units(total)[1].0 == "hour"@
            && uptime_units(total)[2].0 == "minute"@ && uptime_units(total)[3].0 == "second"@,
        uptime_units(total)[0].1 * 86400 + uptime_units(total)[1].1 * 3600 + uptime_units(total)[2].1 * 60
            + uptime_units(total)[3].1 == total,
        uptime_units(total)[1].1 < 24,
        uptime_units(total)[2].1 < 60,
        uptime_units(total)[3].1 < 60,
        uptime_units(total)[0].1 == total / 86400,
{
    let m = total / 60;
    let h = m / 60;
    let d = h / 24;
    assert(total == m * 60 + total % 60) by (nonlinear_arith)
        requires m == total / 60;
    assert(m == h * 60 + m % 60) by (nonlinear_arith)
        requires h == m / 60;
    assert(h == d * 24 + h % 24) by (nonlinear_arith)
        requires d == h / 24;
    assert(d * 86400 + (h % 24) * 3600 + (m % 60) * 60 + total % 60 == total) by (nonlinear_arith)
        requires
            total == m * 60 + total % 60,
            m == h * 60 + m % 60,
            h == d * 24 + h % 24,
    ;
    assert(d == total / 86400) by (nonlinear_arith)
        requires
            d * 86400 + (h % 24) * 3600 + (m % 60) * 60 + total % 60 == total,
            0 <= h % 24 < 24,
            0 <= m % 60 < 60,
            0 <= total % 60 < 60,
            d >= 0,
    ;
}

/// Shown as `p` then the count and unit of `u` leads the text `p` then the
/// unit as the reply shows it, then anything.
proof fn lemma_leads_with_count(p: Seq<char>, n: nat, word: Seq<char>, name: Seq<char>, rest: Seq<char>)
    requires
        word == " "@ + name,
    ensures
        (p + decimal(n) + word).is_prefix_of(p + unit_text((name, n)) + rest),
{
    lemma_unit_text_leads(n, name, word);
    assert((p + unit_text((name, n)) + rest).take((p + decimal(n) + word).len() as int) =~= p + decimal(n)
        + word);
}

proof fn lemma_prefix_trans(a: Seq<char>, b: Seq<char>, c: Seq<char>)
    requires
        a.is_prefix_of(b),
        b.is_prefix_of(c),
    ensures
        a.is_prefix_of(c),
{
    assert(c.take(a.len() as int) =~= b.take(a.len() as int));
}

proof fn lemma_uptime_days(total: nat)
    requires
        total >= 86400,
    ensures
        ("Merlin has been up for "@ + decimal(total / 86400) + " day"@).is_prefix_of(uptime_plain(total)),
        ("Merlin has been up for <b>"@ + decimal(total / 86400) + " day"@).is_prefix_of(uptime_html(total)),
{
    law_uptime_units_make_up_total(total);
    let u = uptime_units(total);
    lemma_uptime_leads_with(total, 0);
    reveal_strlit(" day");
    reveal_strlit(" ");
    reveal_strlit("day");
    assert(" day"@ =~= " "@ + "day"@);
    let e = Seq::<char>::empty();
    lemma_leads_with_count("Merlin has been up for "@, u[0].1, " day"@, "day"@, e);
    lemma_leads_with_count("Merlin has been up for <b>"@, u[0].1, " day"@, "day"@, e);
    assert("Merlin has been up for "@ + unit_text(u[0]) + e =~= "Merlin has been up for "@ + unit_text(u[0]));
    assert("Merlin has been up for <b>"@ + unit_text(u[0]) + e =~= "Merlin has been up for <b>"@ + unit_text(u[0]));
    lemma_prefix_trans(
        "Merlin has been up for "@ + decimal(total / 86400) + " day"@,
        "Merlin has been up for "@ + unit_text(u[0]),
        uptime_plain(total),
    );
    lemma_prefix_trans(
        "Merlin has been up for <b>"@ + decimal(total / 86400) + " day"@,
        "Merlin has been up for <b>"@ + unit_text(u[0]),
        uptime_html(total),
    );
}

proof fn lemma_uptime_hours(total: nat)
    requires
        3600 <= total < 86400,
    ensures
        ("Merlin has been up for "@ + decimal(total / 3600) + " hour"@).is_prefix_of(uptime_plain(total)),
        ("Merlin has been up for <b>"@ + decimal(total / 3600) + " hour"@).is_prefix_of(uptime_html(total)),
{
    law_uptime_units_make_up_total(total);
    let u = uptime_units(total);
    assert(u[0].1 == 0) by (nonlinear_arith)
        requires
            u[0].1 == total / 86400,
            total < 86400,
    ;
    assert(u[1].1 == total / 3600) by (nonlinear_arith)
        requires
            u[0].1 == 0,
            u[0].1 * 86400 + u[1].1 * 3600 + u[2].1 * 60 + u[3].1 == total,
            u[2].1 < 60,
            u[3].1 < 60,
    ;
    lemma_uptime_leads_with(total, 1);
    reveal_strlit(" hour");
    reveal_strlit(" ");
    reveal_strlit("hour");
    assert(" hour"@ =~= " "@ + "hour"@);
    let e = Seq::<char>::empty();
    lemma_leads_with_count("Merlin has been up for "@, u[1].1, " hour"@, "hour"@, e);
    lemma_leads_with_count("Merlin has been up for <b>"@, u[1].1, " hour"@, "hour"@, e);
    assert("Merlin has been up for "@ + unit_text(u[1]) + e =~= "Merlin has been up for "@ + unit_text(u[1]));
    assert("Merlin has been up for <b>"@ + unit_text(u[1]) + e =~= "Merlin has been up for <b>"@ + unit_text(u[1]));
    lemma_prefix_trans(
        "Merlin has been up for "@ + decimal(total / 3600) + " hour"@,
        "Merlin has been up for "@ + unit_text(u[1]),
        uptime_plain(total),
    );
    lemma_prefix_trans(
        "Merlin has been up for <b>"@ + decimal(total / 3600) + " hour"@,
        "Merlin has been up for <b>"@ + unit_text(u[1]),
        uptime_html(total),
    );
}

proof fn lemma_uptime_minutes(total: nat)
    requires
        60 <= total < 3600,
    ensures
        ("Merlin has been up for "@ + decimal(total / 60) + " minute"@).is_prefix_of(uptime_plain(total)),
        ("Merlin has been up for <b>"@ + decimal(total / 60) + " minute"@).is_prefix_of(uptime_html(total)),
{
    law_uptime_units_make_up_total(total);
    let u = uptime_units(total);
    assert(u[0].1 == 0 && u[1].1 == 0) by (nonlinear_arith)
        requires
            u[0].1 * 86400 + u[1].1 * 3600 + u[2].1 * 60 + u[3].1 == total,
            total < 3600,
    ;
    assert(u[2].1 == total / 60) by (nonlinear_arith)
        requires
            u[0].1 == 0 && u[1].1 == 0,
            u[0].1 * 86400 + u[1].1 * 3600 + u[2].1 * 60 + u[3].1 == total,
            u[3].1 < 60,
    ;
    lemma_uptime_leads_with(total, 2);
    reveal_strlit(" minute");
    reveal_strlit(" ");
    reveal_strlit("minute");
    assert(" minute"@ =~= " "@ + "minute"@);
    let e = Seq::<char>::empty();
    lemma_leads_with_count("Merlin has been up for "@, u[2].1, " minute"@, "minute"@, e);
    lemma_leads_with_count("Merlin has been up for <b>"@, u[2].1, " minute"@, "minute"@, e);
    assert("Merlin has been up for "@ + unit_text(u[2]) + e =~= "Merlin has been up for "@ + unit_text(u[2]));
    assert("Merlin has been up for <b>"@ + unit_text(u[2]) + e =~= "Merlin has been up for <b>"@ + unit_text(u[2]));
    lemma_prefix_trans(
        "Merlin has been up for "@ + decimal(total / 60) + " minute"@,
        "Merlin has been up for "@ + unit_text(u[2]),
        uptime_plain(total),
    );
    lemma_prefix_trans(
        "Merlin has been up for <b>"@ + decimal(total / 60) + " minute"@,
        "Merlin has been up for <b>"@ + unit_text(u[2]),
        uptime_html(total),
    );
}

proof fn lemma_uptime_seconds(total: nat)
    requires
        total < 60,
    ensures
        0 < total ==> uptime_plain(total) == "Merlin has been up for "@ + decimal(total) + " second"@ + (
        if total > 1 {
            "s"@
        } else {
            Seq::<char>::empty()
        }) + "."@,
        total == 0 ==> uptime_plain(total) == "Merlin has just started."@ && uptime_html(total)
            == "Merlin has just started."@,
{
    law_uptime_units_make_up_total(total);
    let u = uptime_units(total);
    assert(u[0].1 == 0 && u[1].1 == 0 && u[2].1 == 0 && u[3].1 == total) by (nonlinear_arith)
        requires
            u[0].1 * 86400 + u[1].1 * 3600 + u[2].1 * 60 + u[3].1 == total,
            total < 60,
    ;
    reveal_with_fuel(nonzero_units, 5);
    assert(u.take(4) =~= u);
    assert(u.take(4).drop_last() =~= u.take(3));
    assert(u.take(3).drop_last() =~= u.take(2));
    assert(u.take(2).drop_last() =~= u.take(1));
    assert(u.take(1).drop_last() =~= u.take(0));
    if total == 0 {
        assert(nonzero_units(u).len() == 0);
    } else {
        reveal_strlit(" second");
        reveal_strlit(" ");
        reveal_strlit("second");
        let nz = nonzero_units(u);
        assert(nz =~= seq![u[3]]);
        let texts = first_two(nz).map_values(|x: (Seq<char>, nat)| unit_text(x));
        assert(texts =~= seq![unit_text(u[3])]);
        assert(uptime_text(total) == unit_text(u[3]));
        assert(unit_text(u[3]) =~= decimal(total) + " second"@ + (if total > 1 {
            "s"@
        } else {
            Seq::<char>::empty()
        }));
    }
}

/// The reply leads with the largest unit the bot has been up for, counted in
/// whole units of that size: the days when it has been up a day or more, else
/// the hours, else the minutes; under a minute it names the seconds alone,
/// and at zero it says the bot has just started.
pub proof fn law_uptime_leads_with_largest_unit(total: nat)
    ensures
        total >= 86400 ==> ("Merlin has been up for "@ + decimal(total / 86400) + " day"@).is_prefix_of(
            uptime_plain(total),
        ) && ("Merlin has been up for <b>"@ + decimal(total / 86400) + " day"@).is_prefix_of(
            uptime_html(total),
        ),
        3600 <= total < 86400 ==> ("Merlin has been up for "@ + decimal(total / 3600) + " hour"@).is_prefix_of(
            uptime_plain(total),
        ) && ("Merlin has been up for <b>"@ + decimal(total / 3600) + " hour"@).is_prefix_of(
            uptime_html(total),
        ),
        60 <= total < 3600 ==> ("Merlin has been up for "@ + decimal(total / 60) + " minute"@).is_prefix_of(
            uptime_plain(total),
        ) && ("Merlin has been up for <b>"@ + decimal(total / 60) + " minute"@).is_prefix_of(
            uptime_html(total),
        ),
        0 < total < 60 ==> uptime_plain(total) == "Merlin has been up for "@ + decimal(total) + " second"@ + (
        if total > 1 {
            "s"@
        } else {
            Seq::<char>::empty()
        }) + "."@,
        total == 0 ==> uptime_plain(total) == "Merlin has just started."@ && uptime_html(total)
            == "Merlin has just started."@,
{
    if total >= 86400 {
        lemma_uptime_days(total);
    } else if total >= 3600 {
        lemma_uptime_hours(total);
    } else if total >= 60 {
        lemma_uptime_minutes(total);
    } else {
        lemma_uptime_seconds(total);
    }
}

/// The uptime reply for a bot that has been up `total_secs` seconds, in plain
/// text and in HTML.
pub fn uptime_reply(total_secs: u64) -> (res: (String, String))
    ensures
        res.0@ == uptime_plain(total_secs as nat),
        res.1@ == uptime_html(total_secs as nat),
{
    let ghost total = total_secs as nat;
    let units: Vec<(&str, u64)> = vec![
        ("day", total_secs / 60 / 60 / 24),
        ("hour", (total_secs / 60 / 60) % 24),
        ("minute", (total_secs / 60) % 60),
        ("second", total_secs % 60),
    ];
    let ghost uv = uptime_units(total);
    assert(units@.map_values(|u: (&str, u64)| (u.0@, u.1 as nat)) =~= uv);
    let mut chosen: Vec<(&str, u64)> = Vec::new();
    let mut i: usize = 0;
    while i < units.len()
        invariant
            units@.len() == 4,
            uv == uptime_units(total),
            uv == units@.map_values(|u: (&str, u64)| (u.0@, u.1 as nat)),
            i <= 4,
            chosen@.map_values(|u: (&str, u64)| (u.0@, u.1 as nat)) == first_two(
                nonzero_units(uv.take(i as int)),
            ),
        decreases units.len() - i,
    {
        let ghost before = nonzero_units(uv.take(i as int));
        proof {
            assert(uv.take(i + 1).drop_last() =~= uv.take(i as int));
            assert(uv.take(i + 1).last() == uv[i as int]);
            assert(uv[i as int] == (units@[i as int].0@, units@[i as int].1 as nat));
        }
        if units[i].1 != 0 && chosen.len() < 2 {
            let ghost prev = chosen@;
            chosen.push(units[i]);
            assert(chosen@.map_values(|u: (&str, u64)| (u.0@, u.1 as nat)) =~= prev.map_values(
                |u: (&str, u64)| (u.0@, u.1 as nat),
            ).push(uv[i as int]));
            assert(first_two(before.push(uv[i as int])) =~= first_two(before).push(uv[i as int]));
        } else if units[i].1 != 0 {
            assert(first_two(before.push(uv[i as int])) =~= first_two(before));
        }
        i = i + 1;
    }
    assert(uv.take(4) =~= uv);
    let ghost chunks = first_two(nonzero_units(uv));
    if chosen.len() == 0 {
        return (String::from_str("Merlin has just started."), String::from_str("Merlin has just started."));
    }
    let mut text = String::new();
    let mut j: usize = 0;
    let ghost texts = chunks.map_values(|u: (Seq<char>, nat)| unit_text(u));
    while j < chosen.len()
        invariant
            1 <= chosen@.len() <= 2,
            chosen@.map_values(|u: (&str, u64)| (u.0@, u.1 as nat)) == chunks,
            texts == chunks.map_values(|u: (Seq<char>, nat)| unit_text(u)),
            j <= chosen@.len(),
            j > 0 ==> text@ == join(texts.take(j as int), " and "@),
            j == 0 ==> text@ == Seq::<char>::empty(),
        decreases chosen.len() - j,
    {
        let ghost before = text@;
        let (unit, value) = chosen[j];
        assert(chunks[j as int] == (unit@, value as nat));
        if j > 0 {
            text.append(" and ");
        }
        let ghost mid = text@;
        push_decimal(&mut text, value as u128);
        text.append(" ");
        text.append(unit);
        if value > 1 {
            text.append("s");
        }
        proof {
            assert(text@ =~= mid + unit_text(chunks[j as int]));
            assert(texts[j as int] == unit_text(chunks[j as int]));
            if j == 0 {
                assert(texts.take(1) =~= seq![texts[0]]);
                assert(text@ =~= texts[0]);
            } else {
                assert(join(texts.take(1), " and "@) == texts[0]);
                assert(text@ =~= texts[0] + " and "@ + texts[1]);
                let two = texts.take(2);
                assert(two.drop_first() =~= seq![texts[1]]);
                assert(two[0] == texts[0]);
                assert(join(two, " and "@) == two[0] + " and "@ + join(two.drop_first(), " and "@));
                assert(texts.take(2) =~= seq![texts[0], texts[1]]);
                assert(texts.take(1) =~= seq![texts[0]]);
                assert(seq![texts[0], texts[1]].drop_first() =~= seq![texts[1]]);
            }
        }
        j = j + 1;
    }
    assert(texts.take(chosen@.len() as int) =~= texts);
    let mut plain = String::from_str("Merlin has been up for ");
    plain.append(text.as_str());
    plain.append(".");
    let mut html = String::from_str("Merlin has been up for <b>");
    html.append(text.as_str());
    html.append("</b>");
    (plain, html)
}

} // verus!
