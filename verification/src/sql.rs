//! Text of parameterised UPDATE statements, built piece by piece the way a
//! Postgres query builder does: literal text is appended as is and every
//! bound value is written as `$n`, numbered from 1 in the order bound.

use vstd::prelude::*;
use crate::text::{decimal, u64_to_decimal};

verus! {

broadcast use vstd::string::group_string_axioms;

/// A value bound to a statement parameter.
pub enum SqlValue {
    Text(String),
    Uuid(u128),
    Bool(bool),
    Int(i32),
    /// A value of a Postgres enum type, given by its label.
    Label(String),
    /// A list of texts.
    TextList(Vec<String>),
    /// A value the caller binds itself (a JSON document or a float), known
    /// here by the name of the request field it comes from.
    Supplied(String),
}

/// What a bound value is, as mathematical values.
pub enum Bound {
    Text(Seq<char>),
    Uuid(u128),
    Bool(bool),
    Int(i32),
    Label(Seq<char>),
    TextList(Seq<Seq<char>>),
    Supplied(Seq<char>),
}

pub open spec fn bound_view(v: SqlValue) -> Bound {
    match v {
        SqlValue::Text(s) => Bound::Text(s@),
        SqlValue::Uuid(u) => Bound::Uuid(u),
        SqlValue::Bool(b) => Bound::Bool(b),
        SqlValue::Int(i) => Bound::Int(i),
        SqlValue::Label(s) => Bound::Label(s@),
        SqlValue::TextList(l) => Bound::TextList(l@.map_values(|x: String| x@)),
        SqlValue::Supplied(s) => Bound::Supplied(s@),
    }
}

/// One piece of a statement: literal text, or a bound value.
pub enum Piece {
    Text(Seq<char>),
    Bind(Bound),
}

/// The statement text of `pieces` when `n` values were bound before them.
pub open spec fn render(pieces: Seq<Piece>, n: nat) -> Seq<char>
    decreases pieces.len(),
{
    if pieces.len() == 0 {
        Seq::empty()
    } else {
        match pieces[0] {
            Piece::Text(t) => t + render(pieces.drop_first(), n),
            Piece::Bind(_) => "$"@ + decimal(n + 1) + render(pieces.drop_first(), n + 1),
        }
    }
}

/// The values bound by `pieces`, in order.
pub open spec fn bound(pieces: Seq<Piece>) -> Seq<Bound>
    decreases pieces.len(),
{
    if pieces.len() == 0 {
        Seq::empty()
    } else {
        match pieces[0] {
            Piece::Text(_) => bound(pieces.drop_first()),
            Piece::Bind(v) => seq![v] + bound(pieces.drop_first()),
        }
    }
}

/// The text one more piece adds after `n` bound values.
pub open spec fn piece_text(p: Piece, n: nat) -> Seq<char> {
    match p {
        Piece::Text(t) => t,
        Piece::Bind(_) => "$"@ + decimal(n + 1),
    }
}

pub open spec fn piece_binds(p: Piece) -> Seq<Bound> {
    match p {
        Piece::Text(_) => Seq::empty(),
        Piece::Bind(v) => seq![v],
    }
}

/// Appending a piece appends its text, numbered after the placeholders
/// already rendered, and its bound value.
pub proof fn lemma_render_push(pieces: Seq<Piece>, p: Piece, n: nat)
    ensures
        render(pieces.push(p), n) == render(pieces, n) + piece_text(p, n + bound(pieces).len()),
        bound(pieces.push(p)) == bound(pieces) + piece_binds(p),
    decreases pieces.len(),
{
    if pieces.len() == 0 {
        let q = pieces.push(p);
        assert(q.drop_first() =~= Seq::<Piece>::empty());
        assert(q[0] == p);
        assert(render(Seq::<Piece>::empty(), n) == Seq::<char>::empty());
        assert(render(Seq::<Piece>::empty(), n + 1) == Seq::<char>::empty());
        assert(bound(Seq::<Piece>::empty()) == Seq::<Bound>::empty());
        assert(render(pieces, n) == Seq::<char>::empty());
        assert(bound(pieces) == Seq::<Bound>::empty());
        match p {
            Piece::Text(t) => {
                assert(render(q, n) =~= t);
            },
            Piece::Bind(_) => {
                assert(render(q, n) =~= "$"@ + decimal(n + 1));
            },
        }
    } else {
        let q = pieces.push(p);
        assert(q.drop_first() =~= pieces.drop_first().push(p));
        match pieces[0] {
            Piece::Text(t) => {
                lemma_render_push(pieces.drop_first(), p, n);
                assert(render(q, n) =~= t + render(pieces.drop_first().push(p), n));
            },
            Piece::Bind(_) => {
                lemma_render_push(pieces.drop_first(), p, n + 1);
            },
        }
    }
}

/// The values bound by two runs of pieces, one after the other.
pub proof fn lemma_bound_concat(a: Seq<Piece>, b: Seq<Piece>)
    ensures
        bound(a + b) == bound(a) + bound(b),
    decreases a.len(),
{
    if a.len() == 0 {
        assert(a + b =~= b);
        assert(bound(a) + bound(b) =~= bound(b));
    } else {
        assert((a + b).drop_first() =~= a.drop_first() + b);
        lemma_bound_concat(a.drop_first(), b);
        match a[0] {
            Piece::Text(_) => {},
            Piece::Bind(v) => {
                assert(seq![v] + (bound(a.drop_first()) + bound(b)) =~= (seq![v] + bound(
                    a.drop_first(),
                )) + bound(b));
            },
        }
    }
}

/// A statement being built: its text and the values bound so far.
pub struct QueryText {
    pub sql: String,
    pub binds: Vec<SqlValue>,
}

impl QueryText {
    /// The statement holds exactly the pieces `pieces`.
    pub open spec fn holds(self, pieces: Seq<Piece>) -> bool {
        self.sql@ == render(pieces, 0) && self.binds@.map_values(|v: SqlValue| bound_view(v)) == bound(pieces)
    }

    /// A statement that starts with `prefix`.
    pub fn start(prefix: &str) -> (r: QueryText)
        ensures
            r.holds(seq![Piece::Text(prefix@)]),
            r.binds@.len() == 0,
    {
        let r = QueryText { sql: String::from_str(prefix), binds: Vec::new() };
        proof {
            let ps = seq![Piece::Text(prefix@)];
            assert(ps.drop_first() =~= Seq::<Piece>::empty());
            assert(render(Seq::<Piece>::empty(), 0) == Seq::<char>::empty());
            assert(bound(Seq::<Piece>::empty()) == Seq::<Bound>::empty());
            assert(render(ps, 0) =~= prefix@);
            assert(bound(ps) =~= Seq::<Bound>::empty());
            assert(r.binds@.map_values(|x: SqlValue| bound_view(x)) =~= Seq::<Bound>::empty());
        }
        r
    }

    /// Appends literal text.
    pub fn push(&mut self, Ghost(pieces): Ghost<Seq<Piece>>, text: &str)
        requires
            old(self).holds(pieces),
        ensures
            final(self).holds(pieces.push(Piece::Text(text@))),
            final(self).binds@ == old(self).binds@,
    {
        self.sql.append(text);
        proof {
            lemma_render_push(pieces, Piece::Text(text@), 0);
            assert(bound(pieces) + piece_binds(Piece::Text(text@)) =~= bound(pieces));
        }
    }

    /// Binds a value, writing its parameter `$n` into the text.
    pub fn push_bind(&mut self, Ghost(pieces): Ghost<Seq<Piece>>, v: SqlValue)
        requires
            old(self).holds(pieces),
            old(self).binds@.len() < u64::MAX,
        ensures
            final(self).holds(pieces.push(Piece::Bind(bound_view(v)))),
            final(self).binds@.len() == old(self).binds@.len() + 1,
    {
        let ghost b = bound_view(v);
        let ghost old_binds = self.binds@;
        let k = self.binds.len() as u64 + 1;
        let digits = u64_to_decimal(k);
        self.sql.append("$");
        self.sql.append(digits.as_str());
        self.binds.push(v);
        proof {
            lemma_render_push(pieces, Piece::Bind(b), 0);
            assert(piece_binds(Piece::Bind(b)) =~= seq![b]);
            assert(self.binds@ == old_binds.push(v));
            assert(self.binds@.map_values(|x: SqlValue| bound_view(x)) =~= old_binds.map_values(
                |x: SqlValue| bound_view(x),
            ).push(b));
            assert(old_binds.map_values(|x: SqlValue| bound_view(x)).len() == old_binds.len());
            assert(bound(pieces).len() == old_binds.len());
            assert(self.sql@ =~= render(pieces, 0) + ("$"@ + decimal(0 + bound(pieces).len() + 1)));
            assert(self.sql@ == render(pieces.push(Piece::Bind(b)), 0));
            assert(self.binds@.map_values(|x: SqlValue| bound_view(x)) =~= bound(
                pieces.push(Piece::Bind(b)),
            ));
        }
    }

    /// Appends `col = $n, ` binding `v` when a value is given.
    pub fn push_assign_opt(&mut self, Ghost(pieces): Ghost<Seq<Piece>>, col: &str, v: Option<SqlValue>)
        requires
            old(self).holds(pieces),
            old(self).binds@.len() < u64::MAX,
        ensures
            final(self).holds(pieces + assign_opt(col@, opt_bound(v))),
            final(self).binds@.len() <= old(self).binds@.len() + 1,
    {
        match v {
            Some(x) => self.push_assign(Ghost(pieces), col, x),
            None => {
                assert(pieces + assign_opt(col@, None) =~= pieces);
            },
        }
    }

    /// Appends `col = $n, ` binding `v`.
    pub fn push_assign(&mut self, Ghost(pieces): Ghost<Seq<Piece>>, col: &str, v: SqlValue)
        requires
            old(self).holds(pieces),
            old(self).binds@.len() < u64::MAX,
        ensures
            final(self).holds(pieces + assign(col@, bound_view(v))),
            final(self).binds@.len() == old(self).binds@.len() + 1,
    {
        let ghost b = bound_view(v);
        self.push(Ghost(pieces), col);
        self.push(Ghost(pieces.push(Piece::Text(col@))), " = ");
        self.push_bind(Ghost(pieces.push(Piece::Text(col@)).push(Piece::Text(" = "@))), v);
        self.push(
            Ghost(pieces.push(Piece::Text(col@)).push(Piece::Text(" = "@)).push(Piece::Bind(b))),
            ", ",
        );
        assert(pieces + assign(col@, b) =~= pieces.push(Piece::Text(col@)).push(
            Piece::Text(" = "@),
        ).push(Piece::Bind(b)).push(Piece::Text(", "@)));
    }
}

/// The pieces of `col = $n, ` binding `b`.
pub open spec fn assign(col: Seq<char>, b: Bound) -> Seq<Piece> {
    seq![Piece::Text(col), Piece::Text(" = "@), Piece::Bind(b), Piece::Text(", "@)]
}

/// `assign` when a value is given, nothing otherwise.
pub open spec fn assign_opt(col: Seq<char>, b: Option<Bound>) -> Seq<Piece> {
    match b {
        Some(x) => assign(col, x),
        None => Seq::empty(),
    }
}

/// The bound form of an optional value.
pub open spec fn opt_bound(v: Option<SqlValue>) -> Option<Bound> {
    match v {
        Some(x) => Some(bound_view(x)),
        None => None,
    }
}

/// The assignments of the first `n` of `cols` whose value is given.
pub open spec fn assigns_of(cols: Seq<Seq<char>>, vals: Seq<Option<Bound>>, n: nat) -> Seq<Piece>
    decreases n,
{
    if n == 0 {
        Seq::empty()
    } else {
        assigns_of(cols, vals, (n - 1) as nat) + assign_opt(cols[n - 1], vals[n - 1])
    }
}

/// Whether any of the first `n` values is given.
pub open spec fn any_given(vals: Seq<Option<Bound>>, n: nat) -> bool {
    exists|i: int| 0 <= i < n && #[trigger] vals[i] is Some
}

/// The statement text of `pieces` alone.
pub open spec fn sql_of(pieces: Seq<Piece>) -> Seq<char> {
    render(pieces, 0)
}

} // verus!
