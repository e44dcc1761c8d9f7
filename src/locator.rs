//! The object locator: `s3/{region}/{bucket}/{key}`.

use vstd::prelude::*;
use crate::text::{chars_of, string_of};

verus! {

/// A character allowed in a region: lower-case ASCII letter, digit or `-`.
pub open spec fn is_region_char(c: char) -> bool {
    ('a' <= c && c <= 'z') || ('0' <= c && c <= '9') || c == '-'
}

/// A character allowed in a bucket name: a region character or `.`.
pub open spec fn is_bucket_char(c: char) -> bool {
    is_region_char(c) || c == '.'
}

pub open spec fn all_region_chars(s: Seq<char>) -> bool {
    forall|i: int| 0 <= i < s.len() ==> is_region_char(#[trigger] s[i])
}

pub open spec fn all_bucket_chars(s: Seq<char>) -> bool {
    forall|i: int| 0 <= i < s.len() ==> is_bucket_char(#[trigger] s[i])
}

/// `s` reads `s3/{region}/{bucket}/{key}`, with a non-empty region and bucket
/// drawn from their character classes and any key, the empty one included.
pub open spec fn is_locator_path(
    s: Seq<char>,
    region: Seq<char>,
    bucket: Seq<char>,
    key: Seq<char>,
) -> bool {
    &&& region.len() > 0
    &&& all_region_chars(region)
    &&& bucket.len() > 0
    &&& all_bucket_chars(bucket)
    &&& s == seq!['s', '3', '/'] + region + seq!['/'] + bucket + seq!['/'] + key
}

/// The region, bucket and key that `s` is made of, if it is a locator path.
pub open spec fn parse_locator(s: Seq<char>) -> Option<(Seq<char>, Seq<char>, Seq<char>)> {
    if exists|t: (Seq<char>, Seq<char>, Seq<char>)| is_locator_path(s, t.0, t.1, t.2) {
        Some(choose|t: (Seq<char>, Seq<char>, Seq<char>)| is_locator_path(s, t.0, t.1, t.2))
    } else {
        None
    }
}

/// Where a storage object lives.
pub struct ObjectLocator {
    pub region: String,
    pub bucket: String,
    pub key: String,
}

impl ObjectLocator {
    pub open spec fn parts(&self) -> (Seq<char>, Seq<char>, Seq<char>) {
        (self.region@, self.bucket@, self.key@)
    }
}

proof fn lemma_locator_path_unique(
    s: Seq<char>,
    r1: Seq<char>,
    b1: Seq<char>,
    k1: Seq<char>,
    r2: Seq<char>,
    b2: Seq<char>,
    k2: Seq<char>,
)
    requires
        is_locator_path(s, r1, b1, k1),
        is_locator_path(s, r2, b2, k2),
    ensures
        r1 == r2,
        b1 == b2,
        k1 == k2,
{
    assert(forall|i: int| 0 <= i < r1.len() ==> s[3 + i] == r1[i]);
    assert(forall|i: int| 0 <= i < r2.len() ==> s[3 + i] == r2[i]);
    assert(s[3 + r1.len() as int] == '/');
    assert(s[3 + r2.len() as int] == '/');
    if r1.len() < r2.len() {
        assert(is_region_char(r2[r1.len() as int]));
    }
    if r2.len() < r1.len() {
        assert(is_region_char(r1[r2.len() as int]));
    }
    assert(r1 =~= r2);
    let o = 4 + r1.len() as int;
    assert(forall|i: int| 0 <= i < b1.len() ==> s[o + i] == b1[i]);
    assert(forall|i: int| 0 <= i < b2.len() ==> s[o + i] == b2[i]);
    assert(s[o + b1.len() as int] == '/');
    assert(s[o + b2.len() as int] == '/');
    if b1.len() < b2.len() {
        assert(is_bucket_char(b2[b1.len() as int]));
    }
    if b2.len() < b1.len() {
        assert(is_bucket_char(b1[b2.len() as int]));
    }
    assert(b1 =~= b2);
    let p = o + b1.len() as int + 1;
    assert(k1 =~= s.subrange(p, s.len() as int));
    assert(k2 =~= s.subrange(p, s.len() as int));
}

/// A path of the form `s3/{region}/{bucket}/{key}` yields exactly its region,
/// bucket and key, as they stand in the path.
pub proof fn lemma_parse_locator_exact(s: Seq<char>, region: Seq<char>, bucket: Seq<char>, key: Seq<char>)
    requires
        is_locator_path(s, region, bucket, key),
    ensures
        parse_locator(s) == Some((region, bucket, key)),
{
    let w = (region, bucket, key);
    assert(is_locator_path(s, w.0, w.1, w.2));
    let t = choose|t: (Seq<char>, Seq<char>, Seq<char>)| is_locator_path(s, t.0, t.1, t.2);
    lemma_locator_path_unique(s, t.0, t.1, t.2, region, bucket, key);
}

/// A path that is not of the form `s3/{region}/{bucket}/{key}` yields no
/// locator; in particular the empty path, a path that does not start with
/// `s3/`, and one whose region does not start with a region character.
pub proof fn lemma_parse_locator_rejects(s: Seq<char>)
    ensures
        (forall|r: Seq<char>, b: Seq<char>, k: Seq<char>| !is_locator_path(s, r, b, k))
            ==> parse_locator(s) is None,
        s.len() == 0 ==> parse_locator(s) is None,
        (s.len() < 3 || s[0] != 's' || s[1] != '3' || s[2] != '/') ==> parse_locator(s) is None,
        s.len() < 4 ==> parse_locator(s) is None,
        s.len() >= 4 && !is_region_char(s[3]) ==> parse_locator(s) is None,
{
    if parse_locator(s) is Some {
        let t = parse_locator(s)->0;
        assert(is_locator_path(s, t.0, t.1, t.2));
        assert(s[0] == 's' && s[1] == '3' && s[2] == '/' && s[3] == t.0[0]);
    }
}

/// Splits `path` into region, bucket and key when it reads
/// `s3/{region}/{bucket}/{key}`.
pub fn parse_s3_path(path: &str) -> (r: Option<ObjectLocator>)
    ensures
        match r {
            Some(l) => parse_locator(path@) == Some(l.parts()),
            None => parse_locator(path@) is None,
        },
{
    let cs = chars_of(path);
    let n = cs.len();
    let ghost s = path@;
    if n < 4 || cs[0] != 's' || cs[1] != '3' || cs[2] != '/' {
        proof {
            lemma_parse_locator_rejects(s);
        }
        return None;
    }
    let mut i: usize = 3;
    while i < n && (('a' <= cs[i] && cs[i] <= 'z') || ('0' <= cs[i] && cs[i] <= '9') || cs[i] == '-')
        invariant
            cs@ == s,
            n == s.len(),
            3 <= i <= n,
            forall|j: int| 3 <= j < i ==> is_region_char(#[trigger] s[j]),
        decreases n - i,
    {
        i = i + 1;
    }
    let region_end = i;
    if region_end == 3 || region_end == n || cs[region_end] != '/' {
        proof {
            if parse_locator(s) is Some {
                let t = parse_locator(s)->0;
                assert(is_locator_path(s, t.0, t.1, t.2));
                assert(forall|j: int| 0 <= j < t.0.len() ==> s[3 + j] == t.0[j]);
                assert(s[3 + t.0.len() as int] == '/');
                if t.0.len() < region_end - 3 {
                    assert(is_region_char(s[3 + t.0.len() as int]));
                } else if t.0.len() > region_end - 3 {
                    assert(is_region_char(t.0[region_end - 3]));
                }
            }
        }
        return None;
    }
    let mut j: usize = region_end + 1;
    while j < n && (('a' <= cs[j] && cs[j] <= 'z') || ('0' <= cs[j] && cs[j] <= '9') || cs[j] == '-'
        || cs[j] == '.')
        invariant
            cs@ == s,
            n == s.len(),
            region_end < n,
            region_end + 1 <= j <= n,
            forall|m: int| region_end + 1 <= m < j ==> is_bucket_char(#[trigger] s[m]),
        decreases n - j,
    {
        j = j + 1;
    }
    let bucket_end = j;
    let ghost region = s.subrange(3, region_end as int);
    assert(all_region_chars(region));
    if bucket_end == region_end + 1 || bucket_end == n || cs[bucket_end] != '/' {
        proof {
            if parse_locator(s) is Some {
                let t = parse_locator(s)->0;
                assert(is_locator_path(s, t.0, t.1, t.2));
                assert(forall|m: int| 0 <= m < t.0.len() ==> s[3 + m] == t.0[m]);
                assert(s[3 + t.0.len() as int] == '/');
                if t.0.len() < region_end - 3 {
                    assert(is_region_char(s[3 + t.0.len() as int]));
                } else if t.0.len() > region_end - 3 {
                    assert(is_region_char(t.0[region_end - 3]));
                }
                let o = region_end + 1;
                assert(forall|m: int| 0 <= m < t.1.len() ==> s[o + m] == t.1[m]);
                assert(s[o + t.1.len() as int] == '/');
                if t.1.len() < bucket_end - o {
                    assert(is_bucket_char(s[o + t.1.len() as int]));
                } else if t.1.len() > bucket_end - o {
                    assert(is_bucket_char(t.1[bucket_end - o]));
                }
            }
        }
        return None;
    }
    let region = string_of(&cs, 3, region_end);
    let bucket = string_of(&cs, region_end + 1, bucket_end);
    let key = string_of(&cs, bucket_end + 1, n);
    proof {
        assert(all_bucket_chars(bucket@));
        assert(s =~= seq!['s', '3', '/'] + region@ + seq!['/'] + bucket@ + seq!['/'] + key@);
        lemma_parse_locator_exact(s, region@, bucket@, key@);
    }
    Some(ObjectLocator { region, bucket, key })
}

} // verus!
