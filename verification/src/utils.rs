//! Small helpers: string comparison and rendering, timestamps, random keys.

use vstd::prelude::*;

verus! {

use vstd::string::{StringExecFns, StrSliceExecFns};

/// Whether two strings hold the same characters.
pub fn str_eq(a: &str, b: &str) -> (r: bool)
    ensures
        r == (a@ == b@),
{
    let an = a.unicode_len();
    let bn = b.unicode_len();
    if an != bn {
        return false;
    }
    let mut i: usize = 0;
    while i < an
        invariant
            i <= an,
            an as nat == a@.len(),
            bn as nat == b@.len(),
            an == bn,
            forall|j: int| 0 <= j < i ==> a@[j] == b@[j],
        decreases an - i,
    {
        if a.get_char(i) != b.get_char(i) {
            return false;
        }
        i = i + 1;
    }
    proof {
        assert(a@ =~= b@);
    }
    true
}

/// The decimal digit character for a value below ten.
pub open spec fn dec_digit_char(d: nat) -> char
    recommends
        d < 10,
{
    seq!['0', '1', '2', '3', '4', '5', '6', '7', '8', '9'][d as int]
}

/// The decimal rendering of a number, most significant digit first.
pub open spec fn dec_rep(n: nat) -> Seq<char>
    decreases n,
{
    if n < 10 {
        seq![dec_digit_char(n)]
    } else {
        dec_rep(n / 10).push(dec_digit_char(n % 10))
    }
}

fn digit_str(d: u64) -> (s: &'static str)
    requires
        d < 10,
    ensures
        s@ == seq![dec_digit_char(d as nat)],
{
    if d == 0 {
        proof {
            reveal_strlit("0");
        }
        return "0";
    }
    if d == 1 {
        proof {
            reveal_strlit("1");
        }
        return "1";
    }
    if d == 2 {
        proof {
            reveal_strlit("2");
        }
        return "2";
    }
    if d == 3 {
        proof {
            reveal_strlit("3");
        }
        return "3";
    }
    if d == 4 {
        proof {
            reveal_strlit("4");
        }
        return "4";
    }
    if d == 5 {
        proof {
            reveal_strlit("5");
        }
        return "5";
    }
    if d == 6 {
        proof {
            reveal_strlit("6");
        }
        return "6";
    }
    if d == 7 {
        proof {
            reveal_strlit("7");
        }
        return "7";
    }
    if d == 8 {
        proof {
            reveal_strlit("8");
        }
        return "8";
    }
    proof {
        reveal_strlit("9");
    }
    "9"
}

/// Renders a number in decimal.
pub fn u64_to_dec(n: u64) -> (s: String)
    ensures
        s@ == dec_rep(n as nat),
    decreases n,
{
    if n < 10 {
        String::from_str(digit_str(n))
    } else {
        let q = n / 10;
        let r = n % 10;
        let s = u64_to_dec(q).concat(digit_str(r));
        proof {
            assert(s@ =~= dec_rep(n as nat));
        }
        s
    }
}

/// The characters a generated key is drawn from.
pub open spec fn key_charset() -> Seq<char> {
    "ABCDEFGHIJKLMNOPQRSTUVWXYZabcdefghijklmnopqrstuvwxyz0123456789"@
}

/// Relies on `rand::random_range`: a random index below the bound.  Nothing
/// more is promised of its value, and two calls may differ.
#[verifier::external_body]
fn random_below(bound: usize) -> (r: usize)
    requires
        1 <= bound,
    ensures
        r < bound,
{
    rand::random_range(0..bound)
}

/// A random alphanumeric key of the given length.
pub fn generate_random_key(length: usize) -> (s: String)
    ensures
        s@.len() == length,
        forall|i: int| 0 <= i < s@.len() ==> key_charset().contains(#[trigger] s@[i]),
{
    let charset = "ABCDEFGHIJKLMNOPQRSTUVWXYZabcdefghijklmnopqrstuvwxyz0123456789";
    proof {
        reveal_strlit("ABCDEFGHIJKLMNOPQRSTUVWXYZabcdefghijklmnopqrstuvwxyz0123456789");
    }
    let mut s = String::new();
    let mut i: usize = 0;
    while i < length
        invariant
            i <= length,
            s@.len() == i,
            charset@ == key_charset(),
            charset@.len() == 62,
            charset.is_ascii(),
            forall|j: int| 0 <= j < s@.len() ==> key_charset().contains(#[trigger] s@[j]),
        decreases length - i,
    {
        let idx = random_below(62);
        let c = charset.substring_ascii(idx, idx + 1);
        proof {
            assert(c@[0] == key_charset()[idx as int]);
            assert(key_charset().contains(key_charset()[idx as int]));
        }
        s.append(c);
        i = i + 1;
    }
    s
}

/// The characters with leading `/` removed.
pub open spec fn trim_lead_spec(s: Seq<char>) -> Seq<char>
    decreases s.len(),
{
    if s.len() > 0 && s[0] == '/' {
        trim_lead_spec(s.drop_first())
    } else {
        s
    }
}

/// The characters with trailing `/` removed.
pub open spec fn trim_trail_spec(s: Seq<char>) -> Seq<char>
    decreases s.len(),
{
    if s.len() > 0 && s[s.len() - 1] == '/' {
        trim_trail_spec(s.drop_last())
    } else {
        s
    }
}

/// The characters with `/` removed from both ends.
pub open spec fn trim_slashes_spec(s: Seq<char>) -> Seq<char> {
    trim_trail_spec(trim_lead_spec(s))
}

proof fn lemma_trim_lead_skip(s: Seq<char>, i: int)
    requires
        0 <= i <= s.len(),
        forall|j: int| 0 <= j < i ==> s[j] == '/',
    ensures
        trim_lead_spec(s) == trim_lead_spec(s.skip(i)),
    decreases i,
{
    if i > 0 {
        assert(s[0] == '/');
        assert(s.drop_first() =~= s.skip(1));
        lemma_trim_lead_skip(s.skip(1), i - 1);
        assert(s.skip(1).skip(i - 1) =~= s.skip(i));
    } else {
        assert(s.skip(0) =~= s);
    }
}

proof fn lemma_trim_trail_take(s: Seq<char>, i: int)
    requires
        0 <= i <= s.len(),
        forall|j: int| i <= j < s.len() ==> s[j] == '/',
    ensures
        trim_trail_spec(s) == trim_trail_spec(s.take(i)),
    decreases s.len() - i,
{
    if i < s.len() {
        assert(s[s.len() - 1] == '/');
        assert(s.drop_last() =~= s.take(s.len() - 1));
        lemma_trim_trail_take(s.take(s.len() - 1), i);
        assert(s.take(s.len() - 1).take(i) =~= s.take(i));
    } else {
        assert(s.take(i) =~= s);
    }
}

/// A copy of `s` with `/` removed from both ends.
pub fn trim_slashes(s: &str) -> (r: String)
    ensures
        r@ == trim_slashes_spec(s@),
{
    let n = s.unicode_len();
    let mut start: usize = 0;
    while start < n && s.get_char(start) == '/'
        invariant
            start <= n,
            n as nat == s@.len(),
            forall|j: int| 0 <= j < start ==> s@[j] == '/',
        decreases n - start,
    {
        start = start + 1;
    }
    proof {
        lemma_trim_lead_skip(s@, start as int);
        assert(trim_lead_spec(s@.skip(start as int)) == s@.skip(start as int));
    }
    let ghost t = s@.skip(start as int);
    let mut end: usize = n;
    while end > start && s.get_char(end - 1) == '/'
        invariant
            start <= end <= n,
            n as nat == s@.len(),
            t == s@.skip(start as int),
            forall|j: int| end <= j < n ==> s@[j] == '/',
        decreases end,
    {
        end = end - 1;
    }
    proof {
        assert(forall|j: int| 0 <= j < t.len() ==> t[j] == s@[j + start]);
        assert(forall|j: int| end - start <= j < t.len() ==> t[j] == '/');
        lemma_trim_trail_take(t, end - start);
        if end > start {
            assert(t.take(end - start)[end - start - 1] == s@[end - 1]);
            assert(trim_trail_spec(t.take(end - start)) == t.take(end - start));
        } else {
            assert(t.take(0) =~= Seq::<char>::empty());
            assert(trim_trail_spec(t.take(0)) =~= t.take(0));
        }
        assert(t.take(end - start) =~= s@.subrange(start as int, end as int));
    }
    String::from_str(s.substring_char(start, end))
}

/// The parts, each trimmed of surrounding `/`, joined with single `/`.
pub open spec fn join_path_spec(parts: Seq<Seq<char>>) -> Seq<char>
    decreases parts.len(),
{
    if parts.len() == 0 {
        Seq::empty()
    } else if parts.len() == 1 {
        trim_slashes_spec(parts[0])
    } else {
        trim_slashes_spec(parts[0]) + "/"@ + join_path_spec(parts.drop_first())
    }
}

fn join_path_from(parts: &Vec<String>, i: usize) -> (r: String)
    requires
        i <= parts@.len(),
    ensures
        r@ == join_path_spec(parts@.map_values(|p: String| p@).skip(i as int)),
    decreases parts@.len() - i,
{
    let n = parts.len();
    let ghost tail = parts@.map_values(|p: String| p@).skip(i as int);
    if i >= n {
        proof {
            assert(tail =~= Seq::<Seq<char>>::empty());
        }
        String::new()
    } else {
        proof {
            assert(tail[0] == parts@[i as int]@);
        }
        let head = trim_slashes(parts[i].as_str());
        if i + 1 == n {
            proof {
                assert(tail.len() == 1);
            }
            head
        } else {
            let rest = join_path_from(parts, i + 1);
            proof {
                assert(tail.drop_first() =~= parts@.map_values(|p: String| p@).skip(i as int + 1));
            }
            head.concat("/").concat(rest.as_str())
        }
    }
}

/// Joins path parts with single `/`, trimming `/` off each part first.
pub fn join_path(parts: &Vec<String>) -> (r: String)
    ensures
        r@ == join_path_spec(parts@.map_values(|p: String| p@)),
{
    let r = join_path_from(parts, 0);
    proof {
        assert(parts@.map_values(|p: String| p@).skip(0) =~= parts@.map_values(|p: String| p@));
    }
    r
}

/// The RFC 3339 rendering, at second precision with a numeric offset, of a
/// UTC timestamp given in milliseconds.
pub uninterp spec fn rfc3339_of(ms: i64) -> Seq<char>;

/// The compact `yyyyMMddTHHmm` rendering of a UTC timestamp given in
/// milliseconds.
pub uninterp spec fn compact_minute_of(ms: i64) -> Seq<char>;

/// Relies on chrono's `DateTime::from_timestamp_millis` and
/// `to_rfc3339_opts` (second precision, numeric offset): the rendering
/// depends on the timestamp alone; a UTC rendering ends in "+00:00"; only a
/// timestamp outside chrono's representable range (about 262,000 years
/// either way) yields `None`.
#[verifier::external_body]
fn format_rfc3339_secs(ms: i64) -> (r: Option<String>)
    ensures
        r matches Some(s) ==> s@ == rfc3339_of(ms) && s@.len() >= 6 && s@.subrange(
            s@.len() - 6,
            s@.len() as int,
        ) == "+00:00"@,
        -8_000_000_000_000_000 <= ms <= 8_000_000_000_000_000 ==> r is Some,
{
    chrono::DateTime::<chrono::Utc>::from_timestamp_millis(ms).map(
        |t| t.to_rfc3339_opts(chrono::SecondsFormat::Secs, false),
    )
}

/// Relies on chrono's `DateTime::from_timestamp_millis` and `format` with
/// `%Y%m%dT%H%M`: the rendering depends on the timestamp alone; only a
/// timestamp outside chrono's representable range yields `None`.
#[verifier::external_body]
fn format_compact_minutes(ms: i64) -> (r: Option<String>)
    ensures
        r matches Some(s) ==> s@ == compact_minute_of(ms),
        -8_000_000_000_000_000 <= ms <= 8_000_000_000_000_000 ==> r is Some,
{
    chrono::DateTime::<chrono::Utc>::from_timestamp_millis(ms).map(
        |t| t.format("%Y%m%dT%H%M").to_string(),
    )
}

/// Relies on chrono's `Utc::now`: the current UTC time in milliseconds.
/// Nothing can be promised of a clock reading.
#[verifier::external_body]
fn utc_now_ms() -> i64 {
    chrono::Utc::now().timestamp_millis()
}

/// A clock reading forced into a range that keeps later arithmetic in
/// bounds; the clamp is loose enough never to fire on a sane clock.
pub fn clamped_now_ms() -> (r: i64)
    ensures
        -1_000_000_000_000_000 <= r <= 1_000_000_000_000_000,
{
    let now = utc_now_ms();
    if now > 1_000_000_000_000_000 {
        1_000_000_000_000_000
    } else if now < -1_000_000_000_000_000 {
        -1_000_000_000_000_000
    } else {
        now
    }
}

/// A rendered timestamp with the "+00:00" suffix removed; empty when the
/// suffix is missing.
pub open spec fn strip_utc_suffix(s: Seq<char>) -> Seq<char> {
    if s.len() >= 6 && s.subrange(s.len() - 6, s.len() as int) == "+00:00"@ {
        s.take(s.len() - 6)
    } else {
        Seq::empty()
    }
}

/// The RFC 3339 rendering, without its UTC offset suffix, of the moment
/// `secs` seconds before `now_ms`.
pub fn rfc3339_before(now_ms: i64, secs: i64) -> (r: String)
    requires
        -1_000_000_000_000_000 <= now_ms <= 1_000_000_000_000_000,
        -1_000_000_000_000 <= secs <= 1_000_000_000_000,
    ensures
        r@ == strip_utc_suffix(rfc3339_of((now_ms - secs * 1000) as i64)),
{
    let target = now_ms - secs * 1000;
    let rendered = format_rfc3339_secs(target);
    match rendered {
        Some(s) => {
            let n = s.unicode_len();
            let trimmed = s.as_str().substring_char(0, n - 6);
            String::from_str(trimmed)
        },
        None => {
            proof {
                assert(false);
            }
            String::new()
        },
    }
}

/// The compact `yyyyMMddTHHmm` rendering of the moment `secs` seconds before
/// `now_ms`.
pub fn compact_minutes_before(now_ms: i64, secs: i64) -> (r: String)
    requires
        -1_000_000_000_000_000 <= now_ms <= 1_000_000_000_000_000,
        -1_000_000_000_000 <= secs <= 1_000_000_000_000,
    ensures
        r@ == compact_minute_of((now_ms - secs * 1000) as i64),
{
    let target = now_ms - secs * 1000;
    match format_compact_minutes(target) {
        Some(s) => s,
        None => {
            proof {
                assert(false);
            }
            String::new()
        },
    }
}

/// The RFC 3339 rendering, without its UTC offset suffix, of the moment
/// `secs` seconds ago.
pub fn time_rfc3339_opts(secs: i64) -> (r: String)
    requires
        -1_000_000_000_000 <= secs <= 1_000_000_000_000,
    ensures
        exists|t: i64| r@ == strip_utc_suffix(rfc3339_of(t)),
{
    let now = clamped_now_ms();
    rfc3339_before(now, secs)
}

/// The compact `yyyyMMddTHHmm` rendering of the moment `secs` seconds ago.
pub fn time_yyyy_mmdd_thhmm(secs: i64) -> (r: String)
    requires
        -1_000_000_000_000 <= secs <= 1_000_000_000_000,
    ensures
        exists|t: i64| r@ == compact_minute_of(t),
{
    let now = clamped_now_ms();
    compact_minutes_before(now, secs)
}

/// The RFC 3339 rendering, at second precision, of the current time.
pub fn now() -> (r: String)
    ensures
        exists|t: i64| r@ == rfc3339_of(t),
{
    let n = clamped_now_ms();
    match format_rfc3339_secs(n) {
        Some(s) => s,
        None => {
            proof {
                assert(false);
            }
            String::new()
        },
    }
}

} // verus!
