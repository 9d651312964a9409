//! The server catalog: the server descriptor, display ellipsizing, the
//! fixed-width listing table, distance-ordered ranking, and candidate
//! selection for a test run.

use vstd::prelude::*;

use crate::error::TestError;
use crate::text::spec_dec;
use crate::text::spec_pad_right;
use crate::text::spec_two_digits;
use crate::text::pad_right;
use crate::text::two_digits;
use crate::text::u64_to_string;

verus! {

/// Sponsor text is shortened to this many characters for display.
pub const MAX_SPONSOR_LENGTH: usize = 20;

/// Server name text is shortened to this many characters for display.
pub const MAX_NAME_LENGTH: usize = 20;

/// How many nearest servers a plain listing shows.
pub const TOP_X_NUM_SERVERS: usize = 10;

/// How many nearest servers form the fallback chain when no explicit id is
/// requested.
pub const DEFAULT_SERVER_COUNT: usize = 3;

/// A speed test server with its metadata.
///
/// The distance from the caller is carried in whole meters, so that ranking
/// and display stay exact integer arithmetic.
#[derive(Debug)]
pub struct Server {
    /// Unique identifier for the server.
    pub id: u32,
    /// The sponsor/provider of the server.
    pub sponsor: String,
    /// The name of the server location.
    pub name: String,
    /// Distance from the client in meters.
    pub distance_m: u64,
    /// The URL used for testing.
    pub url: String,
}

impl Clone for Server {
    /// A clone carries exactly the same metadata.
    fn clone(&self) -> (r: Self)
        ensures
            r == *self,
    {
        Server {
            id: self.id,
            sponsor: self.sponsor.clone(),
            name: self.name.clone(),
            distance_m: self.distance_m,
            url: self.url.clone(),
        }
    }
}

/// Text shortened to at most `max_len` characters: longer text keeps its
/// first `max_len - 3` characters and ends in `"..."`.
pub open spec fn spec_ellipsize(t: Seq<char>, max_len: int) -> Seq<char> {
    if t.len() > max_len {
        t.subrange(0, max_len - 3) + "..."@
    } else {
        t
    }
}

/// Shortens `text` for display: text longer than `max_len` characters is cut
/// to `max_len - 3` characters with `"..."` appended, so the result is then
/// exactly `max_len` characters; shorter text is returned unchanged. The
/// marker is never longer than the field, hence `max_len` is at least three
/// whenever a cut happens.
pub fn ellipsize(text: &str, max_len: usize) -> (r: String)
    requires
        text@.len() > max_len ==> max_len >= 3,
    ensures
        r@ == spec_ellipsize(text@, max_len as int),
        text@.len() > max_len ==> r@.len() == max_len,
        text@.len() > max_len ==> r@.subrange(0, max_len - 3) == text@.subrange(
            0,
            max_len - 3,
        ),
        text@.len() > max_len ==> r@.subrange(max_len - 3, max_len as int) == "..."@,
        text@.len() <= max_len ==> r@ == text@,
{
    let n = text.unicode_len();
    if n > max_len {
        let mut r = text.substring_char(0, max_len - 3).to_owned();
        r.append("...");
        proof {
            reveal_strlit("...");
            assert(r@ =~= spec_ellipsize(text@, max_len as int));
            assert(r@.subrange(0, max_len - 3) =~= text@.subrange(0, max_len - 3));
            assert(r@.subrange(max_len - 3, max_len as int) =~= "..."@);
        }
        r
    } else {
        text.to_owned()
    }
}

/// Kilometers with one decimal place, truncated: `"100.5"` for 100_500
/// meters.
pub open spec fn spec_km_tenths(m: int) -> Seq<char> {
    spec_dec(m / 1000) + seq!['.', crate::text::spec_digit((m % 1000) / 100)]
}

/// Kilometers with two decimal places, truncated: `"100.50"` for 100_500
/// meters.
pub open spec fn spec_km_hundredths(m: int) -> Seq<char> {
    spec_dec(m / 1000) + seq!['.'] + spec_two_digits((m % 1000) / 10)
}

/// Renders a distance in meters as kilometers with one decimal place.
fn km_tenths(m: u64) -> (r: String)
    ensures
        r@ == spec_km_tenths(m as int),
{
    let mut r = u64_to_string(m / 1000);
    r.append(".");
    r.append(crate::text::digit_str((m % 1000) / 100));
    proof {
        reveal_strlit(".");
        assert(r@ =~= spec_km_tenths(m as int));
    }
    r
}

/// Renders a distance in meters as kilometers with two decimal places.
fn km_hundredths(m: u64) -> (r: String)
    ensures
        r@ == spec_km_hundredths(m as int),
{
    let mut r = u64_to_string(m / 1000);
    r.append(".");
    let frac = two_digits((m % 1000) / 10);
    r.append(frac.as_str());
    proof {
        reveal_strlit(".");
        assert(r@ =~= spec_km_hundredths(m as int));
    }
    r
}

/// The one-line display form of a server: id, shortened sponsor and name,
/// and the distance in kilometers with one decimal place.
pub open spec fn spec_server_line(s: Server) -> Seq<char> {
    "Server "@ + spec_dec(s.id as int) + " - "@ + spec_ellipsize(s.sponsor@, 20) + " ("@
        + spec_ellipsize(s.name@, 20) + ") - "@ + spec_km_tenths(s.distance_m as int) + " km"@
}

impl Server {
    /// The one-line display form, e.g. `"Server 1 - Sponsor (Name) - 100.5 km"`.
    pub fn display_string(&self) -> (r: String)
        ensures
            r@ == spec_server_line(*self),
    {
        let mut r = "Server ".to_owned();
        let id_text = u64_to_string(self.id as u64);
        r.append(id_text.as_str());
        r.append(" - ");
        let sponsor = ellipsize(self.sponsor.as_str(), MAX_SPONSOR_LENGTH);
        r.append(sponsor.as_str());
        r.append(" (");
        let name = ellipsize(self.name.as_str(), MAX_NAME_LENGTH);
        r.append(name.as_str());
        r.append(") - ");
        let km = km_tenths(self.distance_m);
        r.append(km.as_str());
        r.append(" km");
        proof {
            assert(r@ =~= spec_server_line(*self));
        }
        r
    }
}

/// A collection of available speed test servers.
pub struct ServerList {
    /// The list of servers.
    pub servers: Vec<Server>,
}

/// One table row: id, shortened sponsor, shortened name and the distance,
/// each left-aligned in its column.
pub open spec fn spec_table_row(s: Server) -> Seq<char> {
    spec_pad_right(spec_dec(s.id as int), 10) + " "@ + spec_pad_right(
        spec_ellipsize(s.sponsor@, 20),
        30,
    ) + " "@ + spec_pad_right(spec_ellipsize(s.name@, 20), 40) + " "@ + spec_pad_right(
        spec_km_hundredths(s.distance_m as int),
        10,
    ) + "\n"@
}

/// The table rows of the given servers, in order.
pub open spec fn spec_table_rows(s: Seq<Server>) -> Seq<char>
    decreases s.len(),
{
    if s.len() == 0 {
        Seq::empty()
    } else {
        spec_table_rows(s.drop_last()) + spec_table_row(s.last())
    }
}

/// The table heading: a title line, the column headers and a separator rule.
pub open spec fn spec_table_header() -> Seq<char> {
    "Available Servers:\n"@ + spec_pad_right("ID"@, 10) + " "@ + spec_pad_right("Sponsor"@, 30)
        + " "@ + spec_pad_right("Name"@, 40) + " "@ + spec_pad_right("Distance"@, 10) + "\n"@
        + crate::text::spec_dashes(100) + "\n"@
}

/// The whole listing: heading followed by one row per server.
pub open spec fn spec_table(s: Seq<Server>) -> Seq<char> {
    spec_table_header() + spec_table_rows(s)
}

/// One table row of the listing.
fn table_row(s: &Server) -> (r: String)
    ensures
        r@ == spec_table_row(*s),
{
    let mut r = pad_right(u64_to_string(s.id as u64).as_str(), 10);
    r.append(" ");
    let sponsor = pad_right(ellipsize(s.sponsor.as_str(), MAX_SPONSOR_LENGTH).as_str(), 30);
    r.append(sponsor.as_str());
    r.append(" ");
    let name = pad_right(ellipsize(s.name.as_str(), MAX_NAME_LENGTH).as_str(), 40);
    r.append(name.as_str());
    r.append(" ");
    let km = pad_right(km_hundredths(s.distance_m).as_str(), 10);
    r.append(km.as_str());
    r.append("\n");
    proof {
        reveal_strlit(" ");
        reveal_strlit("\n");
        assert(r@ =~= spec_table_row(*s));
    }
    r
}

impl ServerList {
    /// Formats the list of servers as a human-readable table string.
    pub fn format_table(&self) -> (r: String)
        ensures
            r@ == spec_table(self.servers@),
    {
        let mut r = "Available Servers:\n".to_owned();
        let id_col = pad_right("ID", 10);
        r.append(id_col.as_str());
        r.append(" ");
        let sponsor_col = pad_right("Sponsor", 30);
        r.append(sponsor_col.as_str());
        r.append(" ");
        let name_col = pad_right("Name", 40);
        r.append(name_col.as_str());
        r.append(" ");
        let distance_col = pad_right("Distance", 10);
        r.append(distance_col.as_str());
        r.append("\n");
        let rule = crate::text::dashes(100);
        r.append(rule.as_str());
        r.append("\n");
        proof {
            assert(r@ =~= spec_table_header());
        }
        let mut i: usize = 0;
        while i < self.servers.len()
            invariant
                i <= self.servers@.len(),
                r@ == spec_table_header() + spec_table_rows(self.servers@.take(i as int)),
            decreases self.servers@.len() - i,
        {
            let row = table_row(&self.servers[i]);
            r.append(row.as_str());
            proof {
                assert(self.servers@.take(i as int + 1).drop_last() =~= self.servers@.take(
                    i as int,
                ));
                assert(self.servers@.take(i as int + 1).last() == self.servers@[i as int]);
                assert(r@ =~= spec_table_header() + spec_table_rows(
                    self.servers@.take(i as int + 1),
                ));
            }
            i = i + 1;
        }
        proof {
            assert(self.servers@.take(self.servers@.len() as int) =~= self.servers@);
        }
        r
    }
}

/// Servers in non-decreasing order of distance: nearest first.
pub open spec fn sorted_by_distance(s: Seq<Server>) -> bool {
    forall|i: int, j: int| 0 <= i < j < s.len() ==> s[i].distance_m <= s[j].distance_m
}

/// The index of a nearest server in a non-empty list.
fn min_distance_index(v: &Vec<Server>) -> (r: usize)
    requires
        v@.len() > 0,
    ensures
        r < v@.len(),
        forall|j: int| 0 <= j < v@.len() ==> v@[r as int].distance_m <= v@[j].distance_m,
{
    let mut best: usize = 0;
    let mut i: usize = 1;
    while i < v.len()
        invariant
            best < i <= v@.len(),
            forall|j: int| 0 <= j < i ==> v@[best as int].distance_m <= v@[j].distance_m,
        decreases v@.len() - i,
    {
        if v[i].distance_m < v[best].distance_m {
            best = i;
        }
        i = i + 1;
    }
    best
}

/// Reorders the given servers by ascending distance. The result holds
/// exactly the given servers, nearest first.
pub fn sort_by_distance(servers: Vec<Server>) -> (r: Vec<Server>)
    ensures
        sorted_by_distance(r@),
        r@.to_multiset() == servers@.to_multiset(),
        r@.len() == servers@.len(),
{
    broadcast use vstd::seq_lib::group_to_multiset_ensures;
    broadcast use vstd::multiset::group_multiset_axioms;

    let mut rest = servers;
    let mut out: Vec<Server> = Vec::new();
    while rest.len() > 0
        invariant
            out@.to_multiset().add(rest@.to_multiset()) == out@.add(rest@).to_multiset(),
            out@.add(rest@).to_multiset() == servers@.to_multiset(),
            out@.len() + rest@.len() == servers@.len(),
            sorted_by_distance(out@),
            forall|i: int, j: int|
                0 <= i < out@.len() && 0 <= j < rest@.len() ==> out@[i].distance_m
                    <= rest@[j].distance_m,
        decreases rest@.len(),
    {
        let ghost old_rest = rest@;
        let ghost old_out = out@;
        let m = min_distance_index(&rest);
        let x = rest.remove(m);
        out.push(x);
        proof {
            assert(old_rest.contains(x));
            vstd::seq_lib::to_multiset_remove(old_rest, m as int);
            vstd::seq_lib::to_multiset_build(old_out, x);
            assert(rest@.to_multiset() =~= old_rest.to_multiset().remove(x));
            assert(out@.to_multiset() =~= old_out.to_multiset().insert(x));
            vstd::seq_lib::to_multiset_contains(old_rest, x);
            assert(old_rest.to_multiset().count(x) > 0);
            assert forall|a: Server|
                out@.to_multiset().add(rest@.to_multiset()).count(a) == old_out.to_multiset().add(
                    old_rest.to_multiset(),
                ).count(a) by {
                assert(out@.to_multiset().count(a) == old_out.to_multiset().insert(x).count(a));
                assert(rest@.to_multiset().count(a) == old_rest.to_multiset().remove(x).count(a));
            }
            assert(out@.to_multiset().add(rest@.to_multiset()) =~= old_out.to_multiset().add(
                old_rest.to_multiset(),
            ));
            assert(out@.to_multiset().add(rest@.to_multiset()) =~= out@.add(rest@).to_multiset())
                by {
                assert(out@.add(rest@).to_multiset() =~= old_out.add(old_rest).to_multiset()) by {
                    assert(out@.add(rest@).to_multiset() == out@.to_multiset().add(
                        rest@.to_multiset(),
                    )) by {
                        vstd::seq_lib::lemma_multiset_commutative(out@, rest@);
                    }
                    assert(old_out.add(old_rest).to_multiset() == old_out.to_multiset().add(
                        old_rest.to_multiset(),
                    )) by {
                        vstd::seq_lib::lemma_multiset_commutative(old_out, old_rest);
                    }
                }
            }
            assert(sorted_by_distance(out@)) by {
                assert(forall|i: int| 0 <= i < old_out.len() ==> old_out[i].distance_m
                    <= x.distance_m);
            }
            assert(forall|i: int, j: int|
                0 <= i < out@.len() && 0 <= j < rest@.len() ==> out@[i].distance_m
                    <= rest@[j].distance_m) by {
                assert(forall|j: int| 0 <= j < rest@.len() ==> x.distance_m
                    <= rest@[j].distance_m) by {
                    assert(forall|j: int|
                        0 <= j < rest@.len() ==> rest@[j] == if j < m {
                            old_rest[j]
                        } else {
                            old_rest[j + 1]
                        });
                }
            }
        }
    }
    proof {
        broadcast use vstd::seq_lib::group_to_multiset_ensures;
        broadcast use vstd::multiset::group_multiset_axioms;

        assert(rest@ =~= Seq::<Server>::empty());
        assert(out@.add(rest@) =~= out@);
        assert(out@.to_multiset() =~= servers@.to_multiset()) by {
            vstd::seq_lib::lemma_multiset_commutative(out@, rest@);
            assert(forall|a: Server| rest@.to_multiset().count(a) == 0) by {
                assert(forall|a: Server| !rest@.contains(a));
            }
        }
    }
    out
}

/// The nearest `num` of the given servers, ordered by ascending distance:
/// the first `num` entries of some distance-sorted reordering of `raw`
/// (or all of them, when fewer are known).
pub fn get_servers(raw: Vec<Server>, num: usize) -> (r: Vec<Server>)
    ensures
        r@.len() == vstd::math::min(num as int, raw@.len() as int),
        sorted_by_distance(r@),
        exists|s: Seq<Server>|
            {
                &&& s.to_multiset() == raw@.to_multiset()
                &&& sorted_by_distance(s)
                &&& r@ == s.take(vstd::math::min(num as int, s.len() as int))
            },
{
    let ghost raw_view = raw@;
    let mut sorted = sort_by_distance(raw);
    let ghost full = sorted@;
    if sorted.len() > num {
        sorted.truncate(num);
    }
    proof {
        assert(sorted@ =~= full.take(vstd::math::min(num as int, full.len() as int)));
        assert(sorted_by_distance(sorted@));
        assert(full.to_multiset() == raw_view.to_multiset() && sorted_by_distance(full)
            && sorted@ == full.take(vstd::math::min(num as int, full.len() as int)));
    }
    sorted
}

impl ServerList {
    /// The nearest `x` of the given servers as a listing.
    pub fn get_top_x(raw: Vec<Server>, x: usize) -> (r: ServerList)
        ensures
            r.servers@.len() == vstd::math::min(x as int, raw@.len() as int),
            sorted_by_distance(r.servers@),
    {
        ServerList { servers: get_servers(raw, x) }
    }

    /// The nearest servers for a plain listing, nearest first.
    pub fn list_servers(raw: Vec<Server>) -> (r: ServerList)
        ensures
            r.servers@.len() == vstd::math::min(TOP_X_NUM_SERVERS as int, raw@.len() as int),
            sorted_by_distance(r.servers@),
    {
        Self::get_top_x(raw, TOP_X_NUM_SERVERS)
    }
}

/// A decimal digit character.
pub open spec fn spec_is_digit(c: char) -> bool {
    '0' <= c && c <= '9'
}

/// The numeric value of a decimal digit character.
pub open spec fn spec_digit_val(c: char) -> int {
    c as int - '0' as int
}

/// The non-negative integer that a run of decimal digits denotes.
pub open spec fn spec_id_value(s: Seq<char>) -> int
    decreases s.len(),
{
    if s.len() == 0 {
        0
    } else {
        spec_id_value(s.drop_last()) * 10 + spec_digit_val(s.last())
    }
}

/// A well-formed server id: at least one character, digits only, and a
/// value that fits the id field.
pub open spec fn spec_is_valid_id(s: Seq<char>) -> bool {
    &&& s.len() > 0
    &&& forall|i: int| 0 <= i < s.len() ==> spec_is_digit(s[i])
    &&& spec_id_value(s) <= u32::MAX
}

proof fn lemma_id_value_nonneg(s: Seq<char>)
    requires
        forall|i: int| 0 <= i < s.len() ==> spec_is_digit(s[i]),
    ensures
        spec_id_value(s) >= 0,
    decreases s.len(),
{
    if s.len() > 0 {
        lemma_id_value_nonneg(s.drop_last());
    }
}

/// Appending further digits never shrinks the denoted value.
proof fn lemma_id_value_take_monotone(s: Seq<char>, i: int, j: int)
    requires
        0 <= i <= j <= s.len(),
        forall|k: int| 0 <= k < s.len() ==> spec_is_digit(s[k]),
    ensures
        spec_id_value(s.take(i)) <= spec_id_value(s.take(j)),
    decreases j - i,
{
    if i < j {
        lemma_id_value_take_monotone(s, i, j - 1);
        assert(s.take(j).drop_last() =~= s.take(j - 1));
        assert(forall|k: int|
            0 <= k < s.take(j - 1).len() ==> spec_is_digit(#[trigger] s.take(j - 1)[k]));
        lemma_id_value_nonneg(s.take(j - 1));
        assert(spec_id_value(s.take(j)) == spec_id_value(s.take(j - 1)) * 10 + spec_digit_val(
            s.take(j).last(),
        ));
    }
}

/// Parses a server id: `Some` exactly on a non-empty, all-digit string whose
/// value fits, and then the parsed value is the denoted integer.
pub fn parse_server_id(s: &str) -> (r: Option<u32>)
    ensures
        match r {
            Option::Some(v) => spec_is_valid_id(s@) && v as int == spec_id_value(s@),
            Option::None => !spec_is_valid_id(s@),
        },
{
    let n = s.unicode_len();
    if n == 0 {
        return Option::None;
    }
    let mut acc: u64 = 0;
    let mut i: usize = 0;
    while i < n
        invariant
            i <= n,
            n == s@.len(),
            forall|k: int| 0 <= k < i ==> spec_is_digit(s@[k]),
            acc == spec_id_value(s@.take(i as int)),
            acc <= u32::MAX,
        decreases n - i,
    {
        let c = s.get_char(i);
        if c < '0' || c > '9' {
            assert(!spec_is_digit(s@[i as int]));
            return Option::None;
        }
        let d = (c as u32) - 48;
        let next = acc * 10 + (d as u64);
        proof {
            assert(s@.take(i as int + 1).drop_last() =~= s@.take(i as int));
            assert(next == spec_id_value(s@.take(i as int + 1)));
        }
        if next > 0xFFFF_FFFF {
            proof {
                if spec_is_valid_id(s@) {
                    lemma_id_value_take_monotone(s@, i as int + 1, n as int);
                    assert(s@.take(n as int) =~= s@);
                }
            }
            return Option::None;
        }
        acc = next;
        i = i + 1;
    }
    proof {
        assert(s@.take(n as int) =~= s@);
    }
    Option::Some(acc as u32)
}

/// The servers of `s`, in order, whose id is `id`.
pub open spec fn spec_matching(s: Seq<Server>, id: u32) -> Seq<Server>
    decreases s.len(),
{
    if s.len() == 0 {
        Seq::empty()
    } else {
        spec_matching(s.drop_last(), id) + if s.last().id == id {
            seq![s.last()]
        } else {
            Seq::empty()
        }
    }
}

/// Chooses the fallback candidates for a test run.
///
/// Without a requested id, the three nearest of the given servers become the
/// ordered fallback chain. With a requested id, the id must be a
/// non-negative integer (else `InvalidServerId`, whatever servers are
/// given); the chain is then the matching entries among the ten nearest, and
/// `ServerNotFound` when there is none.
pub fn select_server(server_id: Option<String>, raw: Vec<Server>) -> (r: Result<
    Vec<Server>,
    TestError,
>)
    ensures
        match server_id {
            Option::None => {
                &&& r matches Result::Ok(v)
                &&& v@.len() == vstd::math::min(DEFAULT_SERVER_COUNT as int, raw@.len() as int)
                &&& sorted_by_distance(v@)
                &&& exists|s: Seq<Server>|
                    {
                        &&& s.to_multiset() == raw@.to_multiset()
                        &&& sorted_by_distance(s)
                        &&& v@ == s.take(
                            vstd::math::min(DEFAULT_SERVER_COUNT as int, s.len() as int),
                        )
                    }
            },
            Option::Some(id_str) => {
                if !spec_is_valid_id(id_str@) {
                    r matches Result::Err(e) && e is InvalidServerId
                } else {
                    match r {
                        Result::Ok(v) => {
                            &&& v@.len() > 0
                            &&& exists|s: Seq<Server>|
                                {
                                    &&& s.to_multiset() == raw@.to_multiset()
                                    &&& sorted_by_distance(s)
                                    &&& v@ == spec_matching(
                                        s.take(
                                            vstd::math::min(
                                                TOP_X_NUM_SERVERS as int,
                                                s.len() as int,
                                            ),
                                        ),
                                        spec_id_value(id_str@) as u32,
                                    )
                                }
                        },
                        Result::Err(e) => {
                            &&& e matches TestError::ServerNotFound { id }
                            &&& id as int == spec_id_value(id_str@)
                            &&& exists|s: Seq<Server>|
                                {
                                    &&& s.to_multiset() == raw@.to_multiset()
                                    &&& sorted_by_distance(s)
                                    &&& spec_matching(
                                        s.take(
                                            vstd::math::min(
                                                TOP_X_NUM_SERVERS as int,
                                                s.len() as int,
                                            ),
                                        ),
                                        spec_id_value(id_str@) as u32,
                                    ).len() == 0
                                }
                        },
                    }
                }
            },
        },
{
    match server_id {
        Option::None => Result::Ok(get_servers(raw, DEFAULT_SERVER_COUNT)),
        Option::Some(id_str) => {
            match parse_server_id(id_str.as_str()) {
                Option::None => Result::Err(TestError::InvalidServerId),
                Option::Some(id) => {
                    let top = get_servers(raw, TOP_X_NUM_SERVERS);
                    let mut matched: Vec<Server> = Vec::new();
                    let mut i: usize = 0;
                    while i < top.len()
                        invariant
                            i <= top@.len(),
                            matched@ == spec_matching(top@.take(i as int), id),
                        decreases top@.len() - i,
                    {
                        if top[i].id == id {
                            let entry = (&top[i]).clone();
                            matched.push(entry);
                        }
                        proof {
                            assert(top@.take(i as int + 1).drop_last() =~= top@.take(i as int));
                            assert(matched@ =~= spec_matching(top@.take(i as int + 1), id));
                        }
                        i = i + 1;
                    }
                    proof {
                        assert(top@.take(top@.len() as int) =~= top@);
                    }
                    if matched.len() == 0 {
                        Result::Err(TestError::ServerNotFound { id })
                    } else {
                        Result::Ok(matched)
                    }
                },
            }
        },
    }
}

} // verus!
