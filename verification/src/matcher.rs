use vstd::prelude::*;
use crate::route_info::RouteInfo;

verus! {

/// One element of a declared path pattern.
#[derive(Debug, Clone)]
pub enum Segment {
    /// Matches exactly one path segment carrying exactly this text.
    Literal(String),
    /// Matches exactly one path segment, whatever its text, and records that
    /// text under this parameter name.
    Capture(String),
    /// Matches all remaining path segments, including none. Only valid as the
    /// last element of a pattern; a pattern of just this element matches
    /// every location.
    Rest,
}

/// Why a pattern was rejected when a matcher was declared. A malformed
/// pattern is a declaration-time failure: dispatch never sees it.
#[derive(Debug, Clone, PartialEq, Eq, Structural)]
pub enum PatternError {
    /// A `Rest` element stands anywhere but last.
    MisplacedRest,
    /// Two captures in the pattern share a parameter name.
    DuplicateCaptureName,
}

/// The parameter name of a capture element (meaningful only when the element
/// is a capture).
pub open spec fn capture_name(s: Segment) -> Seq<char> {
    s->Capture_0@
}

/// `Rest` stands only in the last position.
pub open spec fn rest_only_last(pat: Seq<Segment>) -> bool {
    forall|i: int| 0 <= i < pat.len() && pat[i] is Rest ==> i == pat.len() - 1
}

/// No two captures of the pattern share a parameter name.
pub open spec fn distinct_capture_names(pat: Seq<Segment>) -> bool {
    forall|i: int, j: int|
        0 <= i < j < pat.len() && pat[i] is Capture && pat[j] is Capture
            ==> capture_name(pat[i]) != capture_name(pat[j])
}

/// A well-formed pattern: `Rest` only last, capture names distinct. Every
/// matcher the library hands out satisfies this.
pub open spec fn wf_pattern(pat: Seq<Segment>) -> bool {
    rest_only_last(pat) && distinct_capture_names(pat)
}

/// Whether the pattern, from element `k` on, matches the path from segment
/// `k` on. Every element but `Rest` consumes exactly one path segment, so
/// pattern and path advance in step.
pub open spec fn matches_from(pat: Seq<Segment>, path: Seq<String>, k: int) -> bool
    decreases pat.len() - k,
{
    if k >= pat.len() {
        k == path.len()
    } else {
        match pat[k] {
            Segment::Rest => true,
            Segment::Literal(s) => k < path.len() && path[k]@ == s@ && matches_from(pat, path, k + 1),
            Segment::Capture(_) => k < path.len() && matches_from(pat, path, k + 1),
        }
    }
}

/// The parameters a successful match extracts, from element `k` on: each
/// capture's name paired with the path segment standing at its position, in
/// pattern order.
pub open spec fn captures_from(pat: Seq<Segment>, path: Seq<String>, k: int) -> Seq<(String, String)>
    decreases pat.len() - k,
{
    if k >= pat.len() {
        Seq::empty()
    } else {
        match pat[k] {
            Segment::Rest => Seq::empty(),
            Segment::Literal(_) => captures_from(pat, path, k + 1),
            Segment::Capture(name) => if 0 <= k < path.len() {
                seq![(name, path[k])] + captures_from(pat, path, k + 1)
            } else {
                Seq::empty()
            },
        }
    }
}

/// No two extracted parameters share a name.
pub open spec fn distinct_keys(entries: Seq<(String, String)>) -> bool {
    forall|p: int, q: int| 0 <= p < q < entries.len() ==> entries[p].0@ != entries[q].0@
}

/// `key` is the parameter name of some capture at or after position `k` of
/// the pattern.
pub open spec fn key_is_capture_of(pat: Seq<Segment>, k: int, key: Seq<char>) -> bool {
    exists|i: int| k <= i < pat.len() && pat[i] is Capture && capture_name(pat[i]) == key
}

/// Unique-keys law: when the pattern's capture names are distinct — as they
/// are in every declared matcher — the extracted parameters form a mapping
/// with distinct keys, and every key is one of the pattern's capture names.
pub proof fn lemma_captures_distinct_keys(pat: Seq<Segment>, path: Seq<String>, k: int)
    requires
        distinct_capture_names(pat),
        0 <= k,
    ensures
        distinct_keys(captures_from(pat, path, k)),
        forall|p: int|
            0 <= p < captures_from(pat, path, k).len() ==> key_is_capture_of(
                pat,
                k,
                (#[trigger] captures_from(pat, path, k)[p]).0@,
            ),
    decreases pat.len() - k,
{
    if k < pat.len() {
        lemma_captures_distinct_keys(pat, path, k + 1);
        let caps = captures_from(pat, path, k);
        let rest = captures_from(pat, path, k + 1);
        match pat[k] {
            Segment::Rest => {},
            Segment::Literal(_) => {
                assert(caps == rest);
                assert forall|p: int| 0 <= p < caps.len() implies key_is_capture_of(
                    pat,
                    k,
                    (#[trigger] caps[p]).0@,
                ) by {
                    let i = choose|i: int|
                        k + 1 <= i < pat.len() && pat[i] is Capture && capture_name(pat[i])
                            == rest[p].0@;
                    assert(k <= i < pat.len() && pat[i] is Capture && capture_name(pat[i])
                        == caps[p].0@);
                }
            },
            Segment::Capture(name) => {
                if k < path.len() {
                    assert(caps == seq![(name, path[k])] + rest);
                    assert(caps[0] == (name, path[k]));
                    assert forall|p: int| 0 < p < caps.len() implies key_is_capture_of(
                        pat,
                        k + 1,
                        (#[trigger] caps[p]).0@,
                    ) by {
                        assert(caps[p] == rest[p - 1]);
                    }
                    assert forall|p: int| 0 <= p < caps.len() implies key_is_capture_of(
                        pat,
                        k,
                        (#[trigger] caps[p]).0@,
                    ) by {
                        if p == 0 {
                            assert(pat[k] is Capture && capture_name(pat[k]) == caps[0].0@);
                        } else {
                            let i = choose|i: int|
                                k + 1 <= i < pat.len() && pat[i] is Capture && capture_name(pat[i])
                                    == caps[p].0@;
                            assert(k <= i < pat.len() && pat[i] is Capture && capture_name(pat[i])
                                == caps[p].0@);
                        }
                    }
                    assert forall|p: int, q: int| 0 <= p < q < caps.len() implies (
                    #[trigger] caps[p]).0@ != (#[trigger] caps[q]).0@ by {
                        if p == 0 {
                            let i = choose|i: int|
                                k + 1 <= i < pat.len() && pat[i] is Capture && capture_name(pat[i])
                                    == caps[q].0@;
                            assert(capture_name(pat[k]) != capture_name(pat[i]));
                        } else {
                            assert(caps[p] == rest[p - 1] && caps[q] == rest[q - 1]);
                        }
                    }
                }
            },
        }
    }
}

/// Unique-keys law at the matcher's front door: whatever the location, a
/// declared (well-formed) matcher extracts parameters whose names are
/// distinct.
pub proof fn lemma_matcher_keys_distinct(m: PathMatcher, route: RouteInfo)
    requires
        m.wf(),
    ensures
        distinct_keys(m.spec_captures(route)),
{
    lemma_captures_distinct_keys(m.segments@, route.segments@, 0);
}

/// Named parameter values extracted by a successful match: parameter name
/// paired with matched text, in pattern order. Produced fresh on each
/// successful match attempt; the keys are distinct whenever the pattern is
/// well formed.
#[derive(Debug, Clone, PartialEq)]
pub struct Captures {
    /// The extracted (name, value) pairs, in pattern order.
    pub entries: Vec<(String, String)>,
}

/// The value stored under `name`: the first entry whose key is `name`, if
/// any.
pub open spec fn spec_lookup(entries: Seq<(String, String)>, name: Seq<char>) -> Option<String>
    decreases entries.len(),
{
    if entries.len() == 0 {
        None
    } else if entries[0].0@ == name {
        Some(entries[0].1)
    } else {
        spec_lookup(entries.drop_first(), name)
    }
}

impl Captures {
    /// Look a parameter up by name.
    pub fn get(&self, name: &String) -> (r: Option<String>)
        ensures
            r == spec_lookup(self.entries@, name@),
    {
        let n = self.entries.len();
        proof {
            assert(self.entries@.skip(0) =~= self.entries@);
        }
        let mut i: usize = 0;
        while i < n
            invariant
                i <= n,
                n == self.entries@.len(),
                spec_lookup(self.entries@, name@) == spec_lookup(self.entries@.skip(i as int), name@),
            decreases n - i,
        {
            if self.entries[i].0 == *name {
                assert(self.entries@.skip(i as int)[0] == self.entries@[i as int]);
                return Some(self.entries[i].1.clone());
            }
            proof {
                assert(self.entries@.skip(i as int)[0] == self.entries@[i as int]);
                assert(self.entries@.skip(i as int).drop_first() =~= self.entries@.skip(i as int + 1));
            }
            i += 1;
        }
        proof {
            assert(self.entries@.skip(n as int) =~= Seq::<(String, String)>::empty());
        }
        None
    }

    /// How many parameters the match extracted.
    pub fn len(&self) -> (r: usize)
        ensures
            r == self.entries@.len(),
    {
        self.entries.len()
    }
}

/// The declared half of a route definition: an ordered path pattern together
/// with the name of the view a successful match renders. Immutable once
/// constructed; a failed match is a normal `None`, never a failure.
#[derive(Debug, Clone)]
pub struct PathMatcher {
    /// The pattern, one element per path segment.
    pub segments: Vec<Segment>,
    /// The view a successful match renders, named for the hosting layer.
    pub target: String,
}

impl PathMatcher {
    /// The matcher's pattern is well formed.
    pub open spec fn wf(&self) -> bool {
        wf_pattern(self.segments@)
    }

    /// Whether this matcher accepts the location.
    pub open spec fn spec_matches(&self, route: RouteInfo) -> bool {
        matches_from(self.segments@, route.segments@, 0)
    }

    /// The parameters this matcher extracts from the location.
    pub open spec fn spec_captures(&self, route: RouteInfo) -> Seq<(String, String)> {
        captures_from(self.segments@, route.segments@, 0)
    }

    /// Declare a matcher. A malformed pattern — a `Rest` element anywhere but
    /// last, or two captures sharing a name — is rejected here, at
    /// declaration time, never during dispatch.
    pub fn new(segments: Vec<Segment>, target: String) -> (r: Result<PathMatcher, PatternError>)
        ensures
            r is Ok <==> wf_pattern(segments@),
            r is Ok ==> r->Ok_0.segments == segments && r->Ok_0.target == target,
            !rest_only_last(segments@) ==> r == Result::<PathMatcher, PatternError>::Err(
                PatternError::MisplacedRest,
            ),
            rest_only_last(segments@) && !distinct_capture_names(segments@) ==> r
                == Result::<PathMatcher, PatternError>::Err(PatternError::DuplicateCaptureName),
    {
        let n = segments.len();
        let mut i: usize = 0;
        while i < n
            invariant
                i <= n,
                n == segments@.len(),
                forall|k: int| 0 <= k < i && segments@[k] is Rest ==> k == n - 1,
            decreases n - i,
        {
            match &segments[i] {
                Segment::Rest => {
                    if i + 1 != n {
                        assert(!rest_only_last(segments@));
                        return Err(PatternError::MisplacedRest);
                    }
                },
                _ => {},
            }
            i += 1;
        }
        let mut p: usize = 0;
        while p < n
            invariant
                p <= n,
                n == segments@.len(),
                rest_only_last(segments@),
                forall|a: int, b: int|
                    0 <= a < b < n && a < p && segments@[a] is Capture && segments@[b] is Capture
                        ==> capture_name(segments@[a]) != capture_name(segments@[b]),
            decreases n - p,
        {
            let mut q: usize = p + 1;
            while q < n
                invariant
                    p < q <= n,
                    p < n,
                    n == segments@.len(),
                    rest_only_last(segments@),
                    forall|a: int, b: int|
                        0 <= a < b < n && a < p && segments@[a] is Capture && segments@[b] is Capture
                            ==> capture_name(segments@[a]) != capture_name(segments@[b]),
                    forall|b: int|
                        p < b < q && segments@[p as int] is Capture && segments@[b] is Capture
                            ==> capture_name(segments@[p as int]) != capture_name(segments@[b]),
                decreases n - q,
            {
                match (&segments[p], &segments[q]) {
                    (Segment::Capture(a), Segment::Capture(b)) => {
                        if *a == *b {
                            assert(!distinct_capture_names(segments@));
                            return Err(PatternError::DuplicateCaptureName);
                        }
                    },
                    _ => {},
                }
                q += 1;
            }
            p += 1;
        }
        Ok(PathMatcher { segments, target })
    }

    /// Test this matcher against a location. `Some` exactly when the pattern
    /// matches; the extracted parameters are the pattern's captures paired
    /// with the path segments at their positions, in pattern order.
    pub fn try_match(&self, route: &RouteInfo) -> (r: Option<Captures>)
        ensures
            r is Some <==> self.spec_matches(*route),
            r is Some ==> r->0.entries@ == self.spec_captures(*route),
    {
        let n = self.segments.len();
        let m = route.segments.len();
        let mut entries: Vec<(String, String)> = Vec::new();
        let mut k: usize = 0;
        while k < n
            invariant
                k <= n,
                k <= m,
                n == self.segments@.len(),
                m == route.segments@.len(),
                matches_from(self.segments@, route.segments@, 0) == matches_from(
                    self.segments@,
                    route.segments@,
                    k as int,
                ),
                captures_from(self.segments@, route.segments@, 0) == entries@ + captures_from(
                    self.segments@,
                    route.segments@,
                    k as int,
                ),
            decreases n - k,
        {
            let ghost pat = self.segments@;
            let ghost path = route.segments@;
            match &self.segments[k] {
                Segment::Rest => {
                    proof {
                        assert(entries@ + captures_from(pat, path, k as int) =~= entries@);
                    }
                    return Some(Captures { entries });
                },
                Segment::Literal(s) => {
                    if k == m || !(*s == route.segments[k]) {
                        return None;
                    }
                },
                Segment::Capture(name) => {
                    if k == m {
                        return None;
                    }
                    let ghost before = entries@;
                    entries.push((name.clone(), route.segments[k].clone()));
                    proof {
                        assert(captures_from(pat, path, k as int) == seq![
                            (pat[k as int]->Capture_0, path[k as int]),
                        ] + captures_from(pat, path, k as int + 1));
                        assert(before + captures_from(pat, path, k as int) =~= entries@
                            + captures_from(pat, path, k as int + 1));
                    }
                },
            }
            k += 1;
        }
        if k == m {
            proof {
                assert(entries@ + captures_from(self.segments@, route.segments@, k as int)
                    =~= entries@);
            }
            Some(Captures { entries })
        } else {
            None
        }
    }
}

} // verus!
