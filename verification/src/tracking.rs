//! Real-time tracking: routing of tracker events received from the message
//! broker, and the rules for which trackers a connected user listens to.

use vstd::prelude::*;
use crate::text::{chars_of, decimal, format_int, string_from_chars};

verus! {

// ------------------------------------------------------------------
// Splitting text

/// `s` split at every `sep`, as `str::split` does: `n` separators give
/// `n + 1` pieces, and the empty text gives one empty piece.
pub open spec fn split_on(s: Seq<char>, sep: char) -> Seq<Seq<char>>
    decreases s.len(),
{
    if s.len() == 0 {
        seq![Seq::<char>::empty()]
    } else {
        let rest = split_on(s.drop_last(), sep);
        if s.last() == sep {
            rest.push(Seq::<char>::empty())
        } else {
            rest.update(rest.len() - 1, rest.last().push(s.last()))
        }
    }
}

/// Whether `c` does not occur in `s`.
pub open spec fn lacks(s: Seq<char>, c: char) -> bool {
    forall|i: int| 0 <= i < s.len() ==> s[i] != c
}

pub open spec fn views(v: Seq<Vec<char>>) -> Seq<Seq<char>> {
    v.map_values(|p: Vec<char>| p@)
}

proof fn lemma_split_on_nonempty(s: Seq<char>, sep: char)
    ensures
        split_on(s, sep).len() >= 1,
    decreases s.len(),
{
    if s.len() > 0 {
        lemma_split_on_nonempty(s.drop_last(), sep);
    }
}

/// Splits `s` at every `sep`.
pub fn split_chars(s: &Vec<char>, sep: char) -> (parts: Vec<Vec<char>>)
    ensures
        views(parts@) == split_on(s@, sep),
{
    let mut parts: Vec<Vec<char>> = Vec::new();
    parts.push(Vec::new());
    let mut i: usize = 0;
    assert(s@.subrange(0, 0) =~= Seq::<char>::empty());
    assert(views(parts@) =~= split_on(Seq::<char>::empty(), sep));
    while i < s.len()
        invariant
            i <= s@.len(),
            views(parts@) == split_on(s@.subrange(0, i as int), sep),
        decreases s.len() - i,
    {
        let c = s[i];
        let ghost pre = s@.subrange(0, i as int);
        let ghost next = s@.subrange(0, i + 1);
        assert(next.drop_last() =~= pre);
        assert(next.last() == c);
        proof {
            lemma_split_on_nonempty(pre, sep);
        }
        if c == sep {
            parts.push(Vec::new());
            assert(views(parts@) =~= split_on(next, sep));
        } else {
            let ghost old_parts = parts@;
            let mut last = parts.pop().unwrap();
            last.push(c);
            parts.push(last);
            assert(views(parts@) =~= split_on(next, sep)) by {
                let r = split_on(pre, sep);
                assert(views(old_parts) == r);
                assert(views(old_parts)[r.len() - 1] == old_parts[r.len() - 1]@);
            }
        }
        i = i + 1;
    }
    assert(s@.subrange(0, s@.len() as int) =~= s@);
    parts
}

/// Splitting around one separator splits each side on its own.
pub proof fn lemma_split_on_concat(x: Seq<char>, y: Seq<char>, sep: char)
    ensures
        split_on(x + seq![sep] + y, sep) == split_on(x, sep) + split_on(y, sep),
    decreases y.len(),
{
    lemma_split_on_nonempty(x, sep);
    if y.len() == 0 {
        let s = x + seq![sep];
        assert(s.drop_last() =~= x);
        assert(split_on(x + seq![sep] + y, sep) =~= split_on(x, sep) + split_on(y, sep)) by {
            assert(x + seq![sep] + y =~= s);
        }
    } else {
        let s = x + seq![sep] + y;
        assert(s.drop_last() =~= x + seq![sep] + y.drop_last());
        lemma_split_on_concat(x, y.drop_last(), sep);
        lemma_split_on_nonempty(y.drop_last(), sep);
        assert(s.last() == y.last());
        assert(split_on(s, sep) =~= split_on(x, sep) + split_on(y, sep));
    }
}

/// A text without the separator is one piece.
pub proof fn lemma_split_on_single(x: Seq<char>, sep: char)
    requires
        lacks(x, sep),
    ensures
        split_on(x, sep) == seq![x],
    decreases x.len(),
{
    if x.len() > 0 {
        lemma_split_on_single(x.drop_last(), sep);
        assert(x.drop_last().push(x.last()) =~= x);
        assert(split_on(x, sep) =~= seq![x]);
    } else {
        assert(x =~= Seq::<char>::empty());
    }
}

// ------------------------------------------------------------------
// Tracker event routing keys

/// The pieces of a routing key; tracker events are published with keys of
/// the form `{protocol}.{type}.{imei}`.
pub open spec fn key_parts(key: Seq<char>) -> Seq<Seq<char>> {
    split_on(key, '.')
}

/// A routing key is valid when it has exactly three non-empty pieces.
pub open spec fn valid_routing_key(key: Seq<char>) -> bool {
    let p = key_parts(key);
    p.len() == 3 && p[0].len() > 0 && p[1].len() > 0 && p[2].len() > 0
}

/// `{protocol}.{type}` of a valid key.
pub open spec fn protocol_and_event(key: Seq<char>) -> Seq<char> {
    key_parts(key)[0] + seq!['.'] + key_parts(key)[1]
}

/// The only protocol and event type the API handles.
pub open spec fn supported_event(key: Seq<char>) -> bool {
    protocol_and_event(key) == "h02.location"@
}

/// What to do with an event received on the tracker events queue.
#[derive(Debug)]
pub enum TrackerEvent {
    /// The routing key is not `{protocol}.{type}.{imei}`: log it and drop the event.
    InvalidRoutingKey,
    /// The protocol and event type (given) are not handled: log and drop.
    UnsupportedEvent(String),
    /// An H02 location of the tracker with the given IMEI: look the tracker
    /// up and store and broadcast the position.
    H02Location(String),
}

fn equals_literal(v: &Vec<char>, lit: &str) -> (b: bool)
    ensures
        b == (v@ == lit@),
{
    let w = chars_of(lit);
    if v.len() != w.len() {
        return false;
    }
    let mut i: usize = 0;
    while i < v.len()
        invariant
            v@.len() == w@.len(),
            w@ == lit@,
            i <= v@.len(),
            forall|k: int| 0 <= k < i ==> v@[k] == w@[k],
        decreases v.len() - i,
    {
        if v[i] != w[i] {
            return false;
        }
        i = i + 1;
    }
    assert(v@ =~= w@);
    true
}

/// Decides how to handle a tracker event from its routing key.
pub fn decide_tracker_event(routing_key: &str) -> (ev: TrackerEvent)
    ensures
        match ev {
            TrackerEvent::InvalidRoutingKey => !valid_routing_key(routing_key@),
            TrackerEvent::UnsupportedEvent(pe) => valid_routing_key(routing_key@)
                && !supported_event(routing_key@) && pe@ == protocol_and_event(routing_key@),
            TrackerEvent::H02Location(imei) => valid_routing_key(routing_key@)
                && supported_event(routing_key@) && imei@ == key_parts(routing_key@)[2],
        },
{
    let key = chars_of(routing_key);
    let parts = split_chars(&key, '.');
    assert(views(parts@) == key_parts(routing_key@));
    if parts.len() != 3 {
        return TrackerEvent::InvalidRoutingKey;
    }
    assert(views(parts@)[0] == parts@[0]@);
    assert(views(parts@)[1] == parts@[1]@);
    assert(views(parts@)[2] == parts@[2]@);
    if parts[0].len() == 0 || parts[1].len() == 0 || parts[2].len() == 0 {
        return TrackerEvent::InvalidRoutingKey;
    }
    let mut pe: Vec<char> = parts[0].clone();
    pe.push('.');
    let mut k: usize = 0;
    let ghost base = pe@;
    while k < parts[1].len()
        invariant
            parts@.len() == 3,
            k <= parts@[1]@.len(),
            pe@ == base + parts@[1]@.subrange(0, k as int),
        decreases parts@[1]@.len() - k,
    {
        pe.push(parts[1][k]);
        k = k + 1;
        assert(pe@ =~= base + parts@[1]@.subrange(0, k as int));
    }
    assert(pe@ =~= protocol_and_event(routing_key@));
    if !equals_literal(&pe, "h02.location") {
        return TrackerEvent::UnsupportedEvent(string_from_chars(&pe));
    }
    TrackerEvent::H02Location(string_from_chars(&parts[2]))
}

/// A key built as `{protocol}.{type}.{imei}` from dot-free, non-empty pieces
/// is valid and reads back as those pieces.
pub proof fn lemma_routing_key_roundtrip(protocol: Seq<char>, event: Seq<char>, imei: Seq<char>)
    requires
        protocol.len() > 0,
        event.len() > 0,
        imei.len() > 0,
        lacks(protocol, '.'),
        lacks(event, '.'),
        lacks(imei, '.'),
    ensures
        ({
            let key = protocol + seq!['.'] + event + seq!['.'] + imei;
            &&& valid_routing_key(key)
            &&& key_parts(key) == seq![protocol, event, imei]
            &&& protocol_and_event(key) == protocol + seq!['.'] + event
        }),
{
    let pe = protocol + seq!['.'] + event;
    lemma_split_on_concat(pe, imei, '.');
    lemma_split_on_concat(protocol, event, '.');
    lemma_split_on_single(protocol, '.');
    lemma_split_on_single(event, '.');
    lemma_split_on_single(imei, '.');
    let key = protocol + seq!['.'] + event + seq!['.'] + imei;
    assert(key =~= pe + seq!['.'] + imei);
    assert(key_parts(key) =~= seq![protocol, event, imei]);
}

// ------------------------------------------------------------------
// Subscriptions to tracker positions

/// The maximum number of trackers a user can listen to for real-time
/// position updates.
pub const TRACKER_SUBSCRIPTION_PER_USER_LIMIT: usize = 20;

/// Checks the size of a request to change the listened trackers.
pub fn check_subscription_size(tracker_ids: &Vec<i32>) -> (r: Result<(), String>)
    ensures
        r is Ok <==> tracker_ids@.len() <= TRACKER_SUBSCRIPTION_PER_USER_LIMIT,
        r matches Err(msg) ==> msg@ == "cannot listen to over 20 trackers"@,
{
    if tracker_ids.len() > TRACKER_SUBSCRIPTION_PER_USER_LIMIT {
        return Err("cannot listen to over 20 trackers".to_string());
    }
    Ok(())
}

/// `parts` joined with `sep` between each two of them.
pub open spec fn join(parts: Seq<Seq<char>>, sep: Seq<char>) -> Seq<char>
    decreases parts.len(),
{
    if parts.len() == 0 {
        Seq::<char>::empty()
    } else if parts.len() == 1 {
        parts[0]
    } else {
        join(parts.drop_last(), sep) + sep + parts.last()
    }
}

/// The requested ids that are not among the existing ones, in request order.
pub open spec fn missing_ids(requested: Seq<i32>, existing: Seq<i32>) -> Seq<i32> {
    requested.filter(|id: i32| !existing.contains(id))
}

/// Decimal renderings of ids.
pub open spec fn id_texts(ids: Seq<i32>) -> Seq<Seq<char>> {
    ids.map_values(|id: i32| decimal(id as int))
}

/// The outcome of a request to change the listened trackers: an error to
/// send to the client, if any, and the rooms (one per tracker) to listen to
/// from now on, in place of all previous ones.
pub struct SubscriptionPlan {
    pub error: Option<String>,
    pub rooms: Vec<String>,
}

pub fn contains_id(v: &Vec<i32>, x: i32) -> (b: bool)
    ensures
        b == v@.contains(x),
{
    let mut i: usize = 0;
    while i < v.len()
        invariant
            i <= v@.len(),
            forall|k: int| 0 <= k < i ==> v@[k] != x,
        decreases v.len() - i,
    {
        if v[i] == x {
            assert(v@[i as int] == x);
            return true;
        }
        i = i + 1;
    }
    false
}

fn append_chars(out: &mut Vec<char>, s: &str)
    ensures
        final(out)@ == old(out)@ + s@,
{
    let w = chars_of(s);
    let mut k: usize = 0;
    let ghost base = out@;
    while k < w.len()
        invariant
            k <= w@.len(),
            w@ == s@,
            out@ == base + w@.subrange(0, k as int),
        decreases w.len() - k,
    {
        out.push(w[k]);
        k = k + 1;
        assert(out@ =~= base + w@.subrange(0, k as int));
    }
    assert(w@.subrange(0, w@.len() as int) =~= w@);
}

/// Decides the listened trackers after a change request, given the
/// requested ids and those of them that exist and are visible to the user.
pub fn plan_subscription(requested: &Vec<i32>, existing: &Vec<i32>) -> (plan: SubscriptionPlan)
    ensures
        missing_ids(requested@, existing@).len() == 0 ==> plan.error is None,
        missing_ids(requested@, existing@).len() > 0 ==> (plan.error matches Some(e)
            && e@ == "cannot listen to not found trackers: "@ + join(
                id_texts(missing_ids(requested@, existing@)),
                ", "@,
            )),
        plan.rooms@.map_values(|r: String| r@) == id_texts(existing@),
{
    let mut missing: Vec<i32> = Vec::new();
    let mut i: usize = 0;
    while i < requested.len()
        invariant
            i <= requested@.len(),
            missing@ == missing_ids(requested@.subrange(0, i as int), existing@),
        decreases requested.len() - i,
    {
        let id = requested[i];
        let found = contains_id(existing, id);
        proof {
            let pre = requested@.subrange(0, i as int);
            assert(requested@.subrange(0, i + 1) =~= pre.push(id));
            pre.lemma_filter_push(id, |x: i32| !existing@.contains(x));
        }
        if !found {
            missing.push(id);
        }
        i = i + 1;
    }
    assert(requested@.subrange(0, requested@.len() as int) =~= requested@);
    let error = if missing.len() == 0 {
        None
    } else {
        let mut msg: Vec<char> = Vec::new();
        append_chars(&mut msg, "cannot listen to not found trackers: ");
        let ghost prefix = msg@;
        let mut j: usize = 0;
        while j < missing.len()
            invariant
                j <= missing@.len(),
                missing@.len() > 0,
                prefix == "cannot listen to not found trackers: "@,
                msg@ == prefix + join(id_texts(missing@.subrange(0, j as int)), ", "@),
            decreases missing.len() - j,
        {
            let ghost before = msg@;
            if j > 0 {
                append_chars(&mut msg, ", ");
            }
            let t = format_int(missing[j] as i64);
            append_chars(&mut msg, t.as_str());
            proof {
                let done = missing@.subrange(0, j as int);
                let next = missing@.subrange(0, j + 1);
                assert(next.drop_last() =~= done);
                assert(id_texts(next).drop_last() =~= id_texts(done));
                assert(id_texts(next).last() == decimal(missing@[j as int] as int));
                if j == 0 {
                    assert(id_texts(next).len() == 1);
                    assert(join(id_texts(done), ", "@) =~= Seq::<char>::empty());
                }
                assert(msg@ =~= prefix + join(id_texts(next), ", "@));
            }
            j = j + 1;
        }
        assert(missing@.subrange(0, missing@.len() as int) =~= missing@);
        Some(string_from_chars(&msg))
    };
    let mut rooms: Vec<String> = Vec::new();
    let mut k: usize = 0;
    while k < existing.len()
        invariant
            k <= existing@.len(),
            rooms@.map_values(|r: String| r@) == id_texts(existing@.subrange(0, k as int)),
        decreases existing.len() - k,
    {
        let t = format_int(existing[k] as i64);
        let ghost old_rooms = rooms@;
        rooms.push(t);
        proof {
            let f = |r: String| r@;
            assert(rooms@ == old_rooms.push(t));
            assert(rooms@.map_values(f) =~= old_rooms.map_values(f).push(t@));
            assert(id_texts(existing@.subrange(0, k + 1)) =~= id_texts(existing@.subrange(0, k as int)).push(decimal(existing@[k as int] as int)));
        }
        k = k + 1;
    }
    assert(existing@.subrange(0, existing@.len() as int) =~= existing@);
    SubscriptionPlan { error, rooms }
}

// ------------------------------------------------------------------
// H02 status flags

/// Information about vehicle and tracker status sent with H02 locations.
#[derive(Clone, Copy, Debug, PartialEq, Eq)]
pub struct Status {
    pub temperature_alarm: bool,
    pub three_times_pass_error_alarm: bool,
    pub gprs_occlusion_alarm: bool,
    pub oil_and_engine_cut_off: bool,
    pub storage_battery_removal_state: bool,
    pub high_level_sensor1: bool,
    pub high_level_sensor2: bool,
    pub low_level_sensor1_bond_strap: bool,
    pub gps_receiver_fault_alarm: bool,
    pub analog_quantity_transfinit_alarm: bool,
    pub sos_alarm: bool,
    pub host_powered_by_backup_battery: bool,
    pub storage_battery_removed: bool,
    pub open_circuit_for_gps_antenna: bool,
    pub short_circuit_for_gps_antenna: bool,
    pub low_level_sensor2_bond_strap: bool,
    pub door_open: bool,
    pub vehicle_fortified: bool,
    pub acc: bool,
    pub engine: bool,
    pub custom_alarm: bool,
    pub overspeed: bool,
    pub theft_alarm: bool,
    pub roberry_alarm: bool,
    pub overspeed_alarm: bool,
    pub illegal_ignition_alarm: bool,
    pub no_entry_cross_border_alarm_in: bool,
    pub gps_antenna_open_circuit_alarm: bool,
    pub gps_antenna_short_circuit_alarm: bool,
    pub no_entry_cross_border_alarm_out: bool,
}

} // verus!
