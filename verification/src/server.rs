//! Route paths of the HTTP server module.
//!
//! Scripts write route parameters as `:name`; the router expects `{name}`.
//! A path is read as its `/`-separated segments (as `str::split('/')` gives
//! them, empty segments included); each segment that starts with `:` is
//! rewritten, every other segment is kept, and the segments are joined again.
//!
//! Routes are registered from Lua with a method, a path and a handler; the
//! table keeps them in registration order with their paths rewritten, so
//! that every path it hands to the router is already in router form.
//!
//! A handler that answers with a table may choose its status; a status that
//! is missing or that HTTP does not accept is answered with 200.
use vstd::prelude::*;

verus! {

/// The `/`-separated segments of `p`, empty ones included; there is always
/// at least one.
pub open spec fn split_segments(p: Seq<char>) -> Seq<Seq<char>>
    decreases p.len(),
{
    if p.len() == 0 {
        seq![Seq::<char>::empty()]
    } else {
        let prev = split_segments(p.drop_last());
        if p.last() == '/' {
            prev.push(Seq::<char>::empty())
        } else {
            prev.update(prev.len() - 1, prev.last().push(p.last()))
        }
    }
}

/// Each segment followed by a `/`.
pub open spec fn terminated(segs: Seq<Seq<char>>) -> Seq<char>
    decreases segs.len(),
{
    if segs.len() == 0 {
        Seq::<char>::empty()
    } else {
        terminated(segs.drop_last()) + segs.last() + seq!['/']
    }
}

/// The segments joined by `/`.
pub open spec fn join_segments(segs: Seq<Seq<char>>) -> Seq<char> {
    if segs.len() == 0 {
        Seq::<char>::empty()
    } else {
        terminated(segs.drop_last()) + segs.last()
    }
}

/// A segment `:name` becomes `{name}`; any other segment is kept.
pub open spec fn coerce_segment(seg: Seq<char>) -> Seq<char> {
    if seg.len() > 0 && seg[0] == ':' {
        seq!['{'] + seg.drop_first() + seq!['}']
    } else {
        seg
    }
}

/// The route path the router is given for the script's path `p`.
pub open spec fn coerced_path(p: Seq<char>) -> Seq<char> {
    join_segments(split_segments(p).map_values(|s: Seq<char>| coerce_segment(s)))
}

/// `seg` holds no `/`.
pub open spec fn no_slash(seg: Seq<char>) -> bool {
    forall|i: int| 0 <= i < seg.len() ==> seg[i] != '/'
}

proof fn lemma_split_nonempty(p: Seq<char>)
    ensures
        split_segments(p).len() >= 1,
    decreases p.len(),
{
    if p.len() > 0 {
        lemma_split_nonempty(p.drop_last());
    }
}

/// Every segment of a split is free of `/`.
proof fn lemma_split_no_slash(p: Seq<char>)
    ensures
        forall|k: int| 0 <= k < split_segments(p).len() ==> no_slash(#[trigger] split_segments(p)[k]),
    decreases p.len(),
{
    lemma_split_nonempty(p);
    if p.len() > 0 {
        lemma_split_no_slash(p.drop_last());
        lemma_split_nonempty(p.drop_last());
        let prev = split_segments(p.drop_last());
        if p.last() != '/' {
            assert forall|k: int| 0 <= k < split_segments(p).len() implies no_slash(
                #[trigger] split_segments(p)[k],
            ) by {
                if k == prev.len() - 1 {
                    let s = prev.last().push(p.last());
                    assert(no_slash(prev[k]));
                    assert forall|i: int| 0 <= i < s.len() implies s[i] != '/' by {
                        if i < prev.last().len() {
                            assert(s[i] == prev[k][i]);
                        }
                    }
                }
            }
        }
    }
}

/// Joining more than one segment: the first ones, a `/`, the last one.
proof fn lemma_join_last(segs: Seq<Seq<char>>)
    requires
        segs.len() >= 2,
    ensures
        join_segments(segs) == join_segments(segs.drop_last()) + seq!['/'] + segs.last(),
{
    let d = segs.drop_last();
    assert(d.drop_last() =~= segs.drop_last().drop_last());
    assert(terminated(d) == terminated(d.drop_last()) + d.last() + seq!['/']);
}

/// Splitting a joined path gives back what was joined.
proof fn lemma_join_split(p: Seq<char>)
    ensures
        join_segments(split_segments(p)) == p,
    decreases p.len(),
{
    if p.len() == 0 {
        assert(join_segments(split_segments(p)) =~= p);
    } else {
        let q = p.drop_last();
        lemma_join_split(q);
        lemma_split_nonempty(q);
        let prev = split_segments(q);
        if p.last() == '/' {
            let s = prev.push(Seq::<char>::empty());
            lemma_join_last(s);
            assert(s.drop_last() =~= prev);
            assert(join_segments(s) =~= p);
        } else {
            let s = prev.update(prev.len() - 1, prev.last().push(p.last()));
            assert(s.drop_last() =~= prev.drop_last());
            assert(s.last() == prev.last().push(p.last()));
            assert(join_segments(prev) == terminated(prev.drop_last()) + prev.last());
            assert(p =~= q.push(p.last()));
            assert(join_segments(s) =~= p);
        }
    }
}

/// Appending a piece free of `/` extends the last segment.
proof fn lemma_split_append(q: Seq<char>, s: Seq<char>)
    requires
        no_slash(s),
    ensures
        split_segments(q + s) == split_segments(q).update(
            split_segments(q).len() - 1,
            split_segments(q).last() + s,
        ),
    decreases s.len(),
{
    lemma_split_nonempty(q);
    let prev = split_segments(q);
    if s.len() == 0 {
        assert(q + s =~= q);
        assert(prev.last() + s =~= prev.last());
        assert(prev.update(prev.len() - 1, prev.last() + s) =~= prev);
    } else {
        let s0 = s.drop_last();
        assert(no_slash(s0));
        lemma_split_append(q, s0);
        assert((q + s).drop_last() =~= q + s0);
        assert((q + s).last() == s.last());
        assert(s.last() == s[s.len() - 1]);
        let mid = prev.update(prev.len() - 1, prev.last() + s0);
        assert(mid.last() == prev.last() + s0);
        assert(mid.last().push(s.last()) =~= prev.last() + s);
        assert(mid.update(mid.len() - 1, mid.last().push(s.last())) =~= prev.update(
            prev.len() - 1,
            prev.last() + s,
        ));
    }
}

/// Joining segments free of `/` and splitting again gives them back.
proof fn lemma_split_join(segs: Seq<Seq<char>>)
    requires
        segs.len() >= 1,
        forall|k: int| 0 <= k < segs.len() ==> no_slash(#[trigger] segs[k]),
    ensures
        split_segments(join_segments(segs)) == segs,
    decreases segs.len(),
{
    if segs.len() == 1 {
        lemma_split_append(Seq::<char>::empty(), segs[0]);
        assert(Seq::<char>::empty() + segs[0] =~= segs[0]);
        assert(join_segments(segs) =~= segs[0]);
        assert(split_segments(Seq::<char>::empty()) =~= seq![Seq::<char>::empty()]);
        assert(split_segments(join_segments(segs)) =~= segs);
    } else {
        let d = segs.drop_last();
        assert forall|k: int| 0 <= k < d.len() implies no_slash(#[trigger] d[k]) by {
            assert(d[k] == segs[k]);
        }
        lemma_split_join(d);
        lemma_join_last(segs);
        let head = join_segments(d) + seq!['/'];
        assert(head.drop_last() =~= join_segments(d));
        assert(head.last() == '/');
        assert(split_segments(head) == d.push(Seq::<char>::empty()));
        assert(no_slash(segs[segs.len() - 1]));
        lemma_split_append(head, segs.last());
        let pushed = d.push(Seq::<char>::empty());
        assert(pushed.last() + segs.last() =~= segs.last());
        assert(pushed.update(pushed.len() - 1, segs.last()) =~= segs);
    }
}

proof fn lemma_coerce_segment_no_slash(seg: Seq<char>)
    requires
        no_slash(seg),
    ensures
        no_slash(coerce_segment(seg)),
{
    if seg.len() > 0 && seg[0] == ':' {
        let c = coerce_segment(seg);
        assert forall|i: int| 0 <= i < c.len() implies c[i] != '/' by {
            if 1 <= i < c.len() - 1 {
                assert(c[i] == seg[i]);
            }
        }
    }
}

/// Rewriting is idempotent: a rewritten path is rewritten to itself.
pub proof fn lemma_coerce_path_idempotent(p: Seq<char>)
    ensures
        coerced_path(coerced_path(p)) == coerced_path(p),
{
    let segs = split_segments(p);
    let f = |s: Seq<char>| coerce_segment(s);
    let once = segs.map_values(f);
    lemma_split_nonempty(p);
    lemma_split_no_slash(p);
    assert forall|k: int| 0 <= k < once.len() implies no_slash(#[trigger] once[k]) by {
        lemma_coerce_segment_no_slash(segs[k]);
    }
    lemma_split_join(once);
    assert forall|k: int| 0 <= k < once.len() implies #[trigger] coerce_segment(once[k]) == once[k] by {
        let s = segs[k];
        if s.len() > 0 && s[0] == ':' {
            assert(once[k][0] == '{');
        }
    }
    assert(once.map_values(f) =~= once);
}

/// A path none of whose segments starts with `:` is kept as it is.
pub proof fn lemma_coerce_path_keeps_plain(p: Seq<char>)
    requires
        forall|k: int|
            0 <= k < split_segments(p).len() ==> !(#[trigger] split_segments(p)[k].len() > 0
                && split_segments(p)[k][0] == ':'),
    ensures
        coerced_path(p) == p,
{
    let segs = split_segments(p);
    assert(segs.map_values(|s: Seq<char>| coerce_segment(s)) =~= segs) by {
        assert forall|k: int| 0 <= k < segs.len() implies coerce_segment(segs[k]) == segs[k] by {
            assert(!(segs[k].len() > 0 && segs[k][0] == ':'));
        }
    }
    lemma_join_split(p);
}

/// A path that is one parameter `:name` becomes `{name}`: the whole name
/// is kept, between braces, and nothing else is added.
pub proof fn lemma_coerce_single_parameter(name: Seq<char>)
    requires
        no_slash(name),
    ensures
        coerced_path(seq![':'] + name) == seq!['{'] + name + seq!['}'],
        coerced_path(seq![':'] + name).len() == name.len() + 2,
{
    let seg = seq![':'] + name;
    assert(no_slash(seg)) by {
        assert forall|i: int| 0 <= i < seg.len() implies seg[i] != '/' by {
            if i > 0 {
                assert(seg[i] == name[i - 1]);
            }
        }
    }
    lemma_split_append(Seq::<char>::empty(), seg);
    assert(Seq::<char>::empty() + seg =~= seg);
    assert(split_segments(Seq::<char>::empty()) =~= seq![Seq::<char>::empty()]);
    assert(Seq::<char>::empty() + seg =~= seg);
    assert(split_segments(seg) =~= seq![seg]);
    assert(seg.drop_first() =~= name);
    let m = split_segments(seg).map_values(|t: Seq<char>| coerce_segment(t));
    assert(m =~= seq![seq!['{'] + name + seq!['}']]);
    assert(coerced_path(seg) =~= seq!['{'] + name + seq!['}']);
}

/// Appending a parameter segment `/:name` to any path appends `/{name}` to
/// the rewritten path, with the whole name, and leaves the rewriting of the
/// path before it as it was.
pub proof fn lemma_coerce_appended_parameter(q: Seq<char>, name: Seq<char>)
    requires
        no_slash(name),
    ensures
        coerced_path(q + seq!['/'] + (seq![':'] + name)) == coerced_path(q) + seq!['/']
            + (seq!['{'] + name + seq!['}']),
{
    let f = |t: Seq<char>| coerce_segment(t);
    let seg = seq![':'] + name;
    assert(no_slash(seg)) by {
        assert forall|i: int| 0 <= i < seg.len() implies seg[i] != '/' by {
            if i > 0 {
                assert(seg[i] == name[i - 1]);
            }
        }
    }
    let x = q + seq!['/'];
    assert(x.drop_last() =~= q);
    assert(x.last() == '/');
    lemma_split_nonempty(q);
    let sq = split_segments(q);
    assert(split_segments(x) == sq.push(Seq::<char>::empty()));
    lemma_split_append(x, seg);
    let pushed = sq.push(Seq::<char>::empty());
    assert(pushed.last() + seg =~= seg);
    let all = sq.push(seg);
    assert(pushed.update(pushed.len() - 1, seg) =~= all);
    assert(split_segments(x + seg) == all);
    let m = all.map_values(f);
    assert(m.len() >= 2);
    lemma_join_last(m);
    assert(m.drop_last() =~= sq.map_values(f));
    assert(seg.drop_first() =~= name);
    assert(m.last() == seq!['{'] + name + seq!['}']);
}

/// Every status that HTTP accepts (100 to 999) is answered as asked; any
/// other, or none, is answered with 200.
pub proof fn lemma_status_kept(code: u16)
    ensures
        100 <= code <= 999 ==> status_for(Some(code)) == code,
        !(100 <= code <= 999) ==> status_for(Some(code)) == 200,
        status_for(None) == 200,
{
}

/// Rewriting keeps the number of segments.
pub proof fn lemma_coerce_path_segment_count(p: Seq<char>)
    ensures
        split_segments(coerced_path(p)).len() == split_segments(p).len(),
{
    let segs = split_segments(p);
    let once = segs.map_values(|s: Seq<char>| coerce_segment(s));
    lemma_split_nonempty(p);
    lemma_split_no_slash(p);
    assert forall|k: int| 0 <= k < once.len() implies no_slash(#[trigger] once[k]) by {
        lemma_coerce_segment_no_slash(segs[k]);
    }
    lemma_split_join(once);
}

/// Appends the rewritten form of one segment.
fn push_segment(out: &mut String, seg: &str)
    ensures
        final(out)@ == old(out)@ + coerce_segment(seg@),
{
    let len = seg.unicode_len();
    if len > 0 && seg.get_char(0) == ':' {
        proof {
            reveal_strlit("{");
            reveal_strlit("}");
        }
        out.append("{");
        out.append(seg.substring_char(1, len));
        out.append("}");
        assert(seg@.subrange(1, len as int) =~= seg@.drop_first());
    } else {
        out.append(seg);
    }
}

/// Rewrites the route parameters of `path` from `:name` to `{name}`:
/// `"/user/:id"` becomes `"/user/{id}"`; segments not starting with `:`,
/// such as `"{id}"`, are kept.
pub fn coerce_path(path: &str) -> (res: String)
    ensures
        res@ == coerced_path(path@),
{
    let n = path.unicode_len();
    let mut out = String::new();
    let mut start: usize = 0;
    let mut i: usize = 0;
    let ghost f = |s: Seq<char>| coerce_segment(s);
    proof {
        assert(path@.subrange(0, 0) =~= Seq::<char>::empty());
        assert(out@ =~= terminated(Seq::<Seq<char>>::empty()));
        assert(split_segments(Seq::<char>::empty()).map_values(f).drop_last() =~= Seq::<
            Seq<char>,
        >::empty());
    }
    while i < n
        invariant
            n == path@.len(),
            start <= i <= n,
            split_segments(path@.subrange(0, i as int)).last() == path@.subrange(
                start as int,
                i as int,
            ),
            out@ == terminated(
                split_segments(path@.subrange(0, i as int)).map_values(f).drop_last(),
            ),
            f == (|s: Seq<char>| coerce_segment(s)),
        decreases n - i,
    {
        let ghost q = path@.subrange(0, i as int);
        let ghost q1 = path@.subrange(0, i + 1);
        proof {
            assert(q1.drop_last() =~= q);
            assert(q1.last() == path@[i as int]);
            lemma_split_nonempty(q);
        }
        let c = path.get_char(i);
        if c == '/' {
            let seg = path.substring_char(start, i);
            push_segment(&mut out, seg);
            proof {
                reveal_strlit("/");
            }
            out.append("/");
            proof {
                let prev = split_segments(q);
                let mapped = prev.map_values(f);
                assert(split_segments(q1) == prev.push(Seq::<char>::empty()));
                assert(split_segments(q1).map_values(f).drop_last() =~= mapped);
                assert(mapped.drop_last() =~= prev.drop_last().map_values(f));
                assert(mapped.last() == coerce_segment(prev.last()));
                assert(out@ =~= terminated(mapped));
                assert(path@.subrange((i + 1) as int, (i + 1) as int) =~= Seq::<char>::empty());
            }
            start = i + 1;
        } else {
            proof {
                let prev = split_segments(q);
                let next = prev.update(prev.len() - 1, prev.last().push(c));
                assert(split_segments(q1) == next);
                assert(next.map_values(f).drop_last() =~= prev.map_values(f).drop_last());
                assert(path@.subrange(start as int, i + 1) =~= path@.subrange(
                    start as int,
                    i as int,
                ).push(c));
            }
        }
        i = i + 1;
    }
    let seg = path.substring_char(start, n);
    push_segment(&mut out, seg);
    proof {
        assert(path@.subrange(0, n as int) =~= path@);
        lemma_split_nonempty(path@);
        let mapped = split_segments(path@).map_values(f);
        assert(mapped.last() == coerce_segment(split_segments(path@).last()));
    }
    out
}

/// `axum::http::StatusCode::from_u16(code).is_ok()`. The http crate's
/// source accepts exactly the codes from 100 to 999 (`if let 100..=999`);
/// the contract restates that source.
#[verifier::external_body]
fn status_code_accepted(code: u16) -> (ok: bool)
    ensures
        ok == (100 <= code <= 999),
{
    axum::http::StatusCode::from_u16(code).is_ok()
}

/// The status of a table answer whose `status` field reads as `requested`
/// (`None` when it is missing or not a `u16`).
pub open spec fn status_for(requested: Option<u16>) -> u16 {
    match requested {
        Some(code) if 100 <= code <= 999 => code,
        _ => 200,
    }
}

/// The status of a table answer: the requested one if HTTP accepts it,
/// else 200.
pub fn response_status(requested: Option<u16>) -> (code: u16)
    ensures
        code == status_for(requested),
{
    match requested {
        Some(code) => if status_code_accepted(code) {
            code
        } else {
            200
        },
        None => 200,
    }
}

/// The HTTP methods a route can be registered for.
#[derive(Debug, Clone, Copy, PartialEq, Eq, Structural)]
pub enum Method {
    Get,
    Post,
    Put,
    Delete,
    Patch,
}

/// A registered route: method, path in router form, handler.
pub struct Route<H> {
    pub method: Method,
    pub path: String,
    pub handler: H,
}

/// A route as method, path characters and handler.
pub open spec fn route_view<H>(r: Route<H>) -> (Method, Seq<char>, H) {
    (r.method, r.path@, r.handler)
}

/// The routes registered so far, in registration order.
pub struct RouteTable<H> {
    routes: Vec<Route<H>>,
}

impl<H> View for RouteTable<H> {
    type V = Seq<(Method, Seq<char>, H)>;

    closed spec fn view(&self) -> Seq<(Method, Seq<char>, H)> {
        self.routes@.map_values(|r: Route<H>| route_view(r))
    }
}

/// Every path is in router form: rewriting it again changes nothing.
pub open spec fn router_paths<H>(routes: Seq<(Method, Seq<char>, H)>) -> bool {
    forall|i: int| 0 <= i < routes.len() ==> coerced_path(#[trigger] routes[i].1) == routes[i].1
}

impl<H> RouteTable<H> {
    /// No route.
    pub fn new() -> (t: Self)
        ensures
            t@ == Seq::<(Method, Seq<char>, H)>::empty(),
    {
        RouteTable { routes: Vec::new() }
    }

    /// The number of routes.
    pub fn len(&self) -> (n: usize)
        ensures
            n == self@.len(),
    {
        self.routes.len()
    }

    /// Registers `handler` for `method` on the script's `path`, rewritten to
    /// router form, after the routes already registered.
    pub fn add(&mut self, method: Method, path: &str, handler: H)
        ensures
            final(self)@ == old(self)@.push((method, coerced_path(path@), handler)),
    {
        let route = Route { method, path: coerce_path(path), handler };
        self.routes.push(route);
        proof {
            assert(self.routes@.map_values(|r: Route<H>| route_view(r)) =~= old(self)@.push(
                (method, coerced_path(path@), handler),
            ));
        }
    }

    /// Takes every route out, in registration order, and leaves the table
    /// empty.
    pub fn drain(&mut self) -> (routes: Vec<Route<H>>)
        ensures
            routes@.map_values(|r: Route<H>| route_view(r)) == old(self)@,
            final(self)@ == Seq::<(Method, Seq<char>, H)>::empty(),
    {
        let mut taken = Vec::new();
        std::mem::swap(&mut taken, &mut self.routes);
        proof {
            assert(self.routes@.map_values(|r: Route<H>| route_view(r)) =~= Seq::<
                (Method, Seq<char>, H),
            >::empty());
        }
        taken
    }
}

/// Whatever was registered, every path in the table is in router form.
pub proof fn lemma_registered_paths_in_router_form<H>(
    routes: Seq<(Method, Seq<char>, H)>,
    method: Method,
    path: Seq<char>,
    handler: H,
)
    requires
        router_paths(routes),
    ensures
        router_paths(routes.push((method, coerced_path(path), handler))),
{
    let next = routes.push((method, coerced_path(path), handler));
    assert forall|i: int| 0 <= i < next.len() implies coerced_path(#[trigger] next[i].1)
        == next[i].1 by {
        if i == routes.len() {
            lemma_coerce_path_idempotent(path);
        } else {
            assert(next[i] == routes[i]);
        }
    }
}

} // verus!
