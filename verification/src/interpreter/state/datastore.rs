//! The data a running program keeps: variables in nested scopes,
//! procedures, turtle shapes, the base directory for files and the last
//! error message.
use vstd::prelude::*;

use crate::interpreter::language::procedure::Procedure;
use crate::interpreter::language::token::{SToken, Token};
use crate::interpreter::state::object::TurtleShape;
use crate::table::NameMap;

verus! {

/// The values of a map of tokens.
pub open spec fn token_map(m: Map<Seq<char>, Token>) -> Map<Seq<char>, SToken> {
    m.map_values(|t: Token| t@)
}

/// The value of `name` as the program sees it: the one in the innermost
/// scope that holds `name`. Scopes are listed from the global scope, first,
/// to the innermost, last.
pub open spec fn scope_lookup(scopes: Seq<Map<Seq<char>, SToken>>, name: Seq<char>) -> Option<SToken>
    decreases scopes.len(),
{
    if scopes.len() == 0 {
        None
    } else if scopes.last().contains_key(name) {
        Some(scopes.last()[name])
    } else {
        scope_lookup(scopes.drop_last(), name)
    }
}

/// The index of the innermost scope that holds `name`, if any.
pub open spec fn scope_holding(scopes: Seq<Map<Seq<char>, SToken>>, name: Seq<char>) -> Option<int>
    decreases scopes.len(),
{
    if scopes.len() == 0 {
        None
    } else if scopes.last().contains_key(name) {
        Some(scopes.len() - 1)
    } else {
        scope_holding(scopes.drop_last(), name)
    }
}

/// The scopes after `name` is set to `value`: in the innermost scope that
/// holds `name`, or else in the global scope.
pub open spec fn scope_assign(
    scopes: Seq<Map<Seq<char>, SToken>>,
    name: Seq<char>,
    value: SToken,
) -> Seq<Map<Seq<char>, SToken>> {
    let i = match scope_holding(scopes, name) {
        Some(i) => i,
        None => 0,
    };
    scopes.update(i, scopes[i].insert(name, value))
}

/// The scopes after the innermost one is left; the global scope is never
/// left.
pub open spec fn scopes_after_pop(scopes: Seq<Map<Seq<char>, SToken>>) -> Seq<
    Map<Seq<char>, SToken>,
> {
    if scopes.len() > 1 {
        scopes.drop_last()
    } else {
        scopes
    }
}

/// The scopes after `name` is given `value` in the innermost scope unless
/// that scope already holds it.
pub open spec fn scope_init_local(
    scopes: Seq<Map<Seq<char>, SToken>>,
    name: Seq<char>,
    value: SToken,
) -> Seq<Map<Seq<char>, SToken>> {
    if scopes.last().contains_key(name) {
        scopes
    } else {
        scopes.update(scopes.len() - 1, scopes.last().insert(name, value))
    }
}

/// The shapes every data store starts with.
pub open spec fn initial_shapes() -> Map<Seq<char>, TurtleShape> {
    map![
        "triangle"@ => TurtleShape::Triangle,
        "circle"@ => TurtleShape::Circle,
        "square"@ => TurtleShape::Square,
    ]
}

/// `dir` as a base directory: with a `/` at its end.
pub open spec fn as_directory(dir: Seq<char>) -> Seq<char> {
    if dir.len() > 0 && dir.last() == '/' {
        dir
    } else {
        dir.push('/')
    }
}

/// The deepest nesting of scopes a program may reach.
pub const MAX_SCOPE_DEPTH: usize = 100;

/// Variables, procedures, shapes and settings of a running program.
#[derive(Debug)]
pub struct DataStore {
    scopes: Vec<NameMap<Token>>,
    procedures: NameMap<Procedure>,
    shapes: NameMap<TurtleShape>,
    base_file_directory: String,
    last_error_message: String,
}

impl DataStore {
    /// The scopes, from the global scope, first, to the innermost, last.
    pub closed spec fn scopes(self) -> Seq<Map<Seq<char>, SToken>> {
        self.scopes@.map_values(|s: NameMap<Token>| token_map(s.map()))
    }

    /// The procedures, by name.
    pub closed spec fn procedures(self) -> Map<Seq<char>, Procedure> {
        self.procedures.map()
    }

    /// The shapes, by name.
    pub closed spec fn shapes(self) -> Map<Seq<char>, TurtleShape> {
        self.shapes.map()
    }

    /// The directory that file names are read relative to.
    pub closed spec fn base_directory(self) -> Seq<char> {
        self.base_file_directory@
    }

    /// The message of the last error.
    pub closed spec fn last_error(self) -> Seq<char> {
        self.last_error_message@
    }

    /// There is a global scope, and no name occurs twice in a table.
    pub closed spec fn wf(self) -> bool {
        &&& self.scopes@.len() >= 1
        &&& forall|i: int| 0 <= i < self.scopes@.len() ==> #[trigger] self.scopes@[i].wf()
        &&& self.procedures.wf()
        &&& self.shapes.wf()
        &&& forall|k: Seq<char>|
            #[trigger] self.procedures.map().contains_key(k) ==> self.procedures.map()[k].name@ == k
    }

    /// A well-formed data store has its global scope.
    pub proof fn lemma_has_global(self)
        requires
            self.wf(),
        ensures
            self.scopes().len() >= 1,
    {
    }

    /// A data store with an empty global scope, no procedures and the
    /// shapes `triangle`, `circle` and `square`.
    pub fn new() -> (d: Self)
        ensures
            d.wf(),
            d.scopes() == seq![Map::<Seq<char>, SToken>::empty()],
            d.procedures() == Map::<Seq<char>, Procedure>::empty(),
            d.shapes() == initial_shapes(),
            d.base_directory() == Seq::<char>::empty(),
            d.last_error() == Seq::<char>::empty(),
    {
        let mut scopes: Vec<NameMap<Token>> = Vec::new();
        scopes.push(NameMap::new());
        let mut shapes: NameMap<TurtleShape> = NameMap::new();
        shapes.insert(String::from_str("triangle"), TurtleShape::Triangle);
        shapes.insert(String::from_str("circle"), TurtleShape::Circle);
        shapes.insert(String::from_str("square"), TurtleShape::Square);
        let d = DataStore {
            scopes,
            procedures: NameMap::new(),
            shapes,
            base_file_directory: String::new(),
            last_error_message: String::new(),
        };
        assert(token_map(Map::<Seq<char>, Token>::empty()) =~= Map::<Seq<char>, SToken>::empty());
        assert(d.scopes() =~= seq![Map::<Seq<char>, SToken>::empty()]);
        assert(d.shapes() =~= initial_shapes());
        d
    }

    /// Enters a new, empty innermost scope.
    pub fn push_scope(&mut self)
        requires
            old(self).wf(),
        ensures
            final(self).wf(),
            final(self).scopes() == old(self).scopes().push(Map::<Seq<char>, SToken>::empty()),
            final(self).procedures() == old(self).procedures(),
            final(self).shapes() == old(self).shapes(),
            final(self).base_directory() == old(self).base_directory(),
            final(self).last_error() == old(self).last_error(),
    {
        self.scopes.push(NameMap::new());
        assert(token_map(Map::<Seq<char>, Token>::empty()) =~= Map::<Seq<char>, SToken>::empty());
        assert(self.scopes() =~= old(self).scopes().push(Map::<Seq<char>, SToken>::empty()));
    }

    /// Leaves the innermost scope, unless it is the global scope.
    pub fn pop_scope(&mut self)
        requires
            old(self).wf(),
        ensures
            final(self).wf(),
            final(self).scopes() == scopes_after_pop(old(self).scopes()),
            final(self).procedures() == old(self).procedures(),
            final(self).shapes() == old(self).shapes(),
            final(self).base_directory() == old(self).base_directory(),
            final(self).last_error() == old(self).last_error(),
    {
        if self.scopes.len() > 1 {
            self.scopes.pop();
            assert(self.scopes() =~= old(self).scopes().drop_last());
        }
    }

    /// Leaves every scope but the global one.
    pub fn reset_scope(&mut self)
        requires
            old(self).wf(),
        ensures
            final(self).wf(),
            final(self).scopes() == seq![old(self).scopes()[0]],
            final(self).procedures() == old(self).procedures(),
            final(self).shapes() == old(self).shapes(),
            final(self).base_directory() == old(self).base_directory(),
            final(self).last_error() == old(self).last_error(),
    {
        while self.scopes.len() > 1
            invariant
                self.wf(),
                self.scopes@.len() >= 1,
                self.scopes@[0] == old(self).scopes@[0],
                self.procedures == old(self).procedures,
                self.shapes == old(self).shapes,
                self.base_file_directory == old(self).base_file_directory,
                self.last_error_message == old(self).last_error_message,
            decreases self.scopes@.len(),
        {
            self.scopes.pop();
        }
        assert(self.scopes() =~= seq![old(self).scopes()[0]]);
    }

    /// Whether scopes are nested as deeply as a program may nest them.
    pub fn reached_max_scope_depth(&self) -> (b: bool)
        ensures
            b == (self.scopes().len() >= MAX_SCOPE_DEPTH),
    {
        self.scopes.len() >= MAX_SCOPE_DEPTH
    }

    /// The index of the innermost scope that holds `name`, if any.
    fn innermost_holder(&self, name: &str) -> (r: Option<usize>)
        requires
            self.wf(),
        ensures
            match r {
                Some(i) => scope_holding(self.scopes(), name@) == Some(i as int) && i
                    < self.scopes@.len(),
                None => scope_holding(self.scopes(), name@) is None,
            },
    {
        let ghost s = self.scopes();
        let mut i = self.scopes.len();
        assert(s.subrange(0, i as int) =~= s);
        while i > 0
            invariant
                i <= self.scopes@.len(),
                s == self.scopes(),
                scope_holding(s.subrange(0, i as int), name@) == scope_holding(s, name@),
            decreases i,
        {
            let ghost sub = s.subrange(0, i as int);
            assert(sub.drop_last() =~= s.subrange(0, i - 1));
            if self.scopes[i - 1].contains_key(name) {
                return Some(i - 1);
            }
            i = i - 1;
        }
        None
    }

    /// The value of the variable `name` in the innermost scope that holds
    /// it, if any.
    pub fn get_variable(&self, name: &str) -> (r: Option<&Token>)
        requires
            self.wf(),
        ensures
            match r {
                Some(t) => scope_lookup(self.scopes(), name@) == Some(t@),
                None => scope_lookup(self.scopes(), name@) is None,
            },
    {
        let ghost s = self.scopes();
        let mut i = self.scopes.len();
        assert(s.subrange(0, i as int) =~= s);
        while i > 0
            invariant
                i <= self.scopes@.len(),
                s == self.scopes(),
                self.wf(),
                scope_lookup(s.subrange(0, i as int), name@) == scope_lookup(s, name@),
            decreases i,
        {
            let ghost sub = s.subrange(0, i as int);
            assert(sub.drop_last() =~= s.subrange(0, i - 1));
            match self.scopes[i - 1].get(name) {
                Some(v) => {
                    return Some(v);
                },
                None => {},
            }
            i = i - 1;
        }
        None
    }

    /// Sets the variable `name` to `value` in the innermost scope that
    /// holds it, or else in the global scope.
    pub fn set_variable(&mut self, name: &str, value: Token)
        requires
            old(self).wf(),
        ensures
            final(self).wf(),
            final(self).scopes() == scope_assign(old(self).scopes(), name@, value@),
            final(self).procedures() == old(self).procedures(),
            final(self).shapes() == old(self).shapes(),
            final(self).base_directory() == old(self).base_directory(),
            final(self).last_error() == old(self).last_error(),
    {
        let target = match self.innermost_holder(name) {
            Some(i) => i,
            None => 0,
        };
        let ghost v = value@;
        self.scopes[target].insert(String::from_str(name), value);
        proof {
            let s = self.scopes();
            let o = old(self).scopes();
            assert forall|j: int| 0 <= j < self.scopes@.len() implies #[trigger] self.scopes@[j].wf() by {
                if j != target {
                    assert(self.scopes@[j] == old(self).scopes@[j]);
                }
            }
            assert(token_map(self.scopes@[target as int].map()) =~= o[target as int].insert(name@, v));
            assert(s =~= o.update(target as int, o[target as int].insert(name@, v)));
        }
    }

    /// Gives `name` the value `value` in the innermost scope, unless that
    /// scope already holds `name`.
    pub fn init_local(&mut self, name: &str, value: Token)
        requires
            old(self).wf(),
        ensures
            final(self).wf(),
            final(self).scopes() == scope_init_local(old(self).scopes(), name@, value@),
            final(self).procedures() == old(self).procedures(),
            final(self).shapes() == old(self).shapes(),
            final(self).base_directory() == old(self).base_directory(),
            final(self).last_error() == old(self).last_error(),
    {
        let last = self.scopes.len() - 1;
        if !self.scopes[last].contains_key(name) {
            let ghost v = value@;
            self.scopes[last].insert(String::from_str(name), value);
            proof {
                let o = old(self).scopes();
                assert forall|j: int| 0 <= j < self.scopes@.len() implies #[trigger] self.scopes@[j].wf() by {
                    if j != last {
                        assert(self.scopes@[j] == old(self).scopes@[j]);
                    }
                }
                assert(token_map(self.scopes@[last as int].map()) =~= o.last().insert(name@, v));
                assert(self.scopes() =~= o.update(last as int, o.last().insert(name@, v)));
            }
        }
    }

    /// Removes the variable `name` from the innermost scope.
    pub fn remove_variable(&mut self, name: &str)
        requires
            old(self).wf(),
        ensures
            final(self).wf(),
            final(self).scopes() == old(self).scopes().update(
                old(self).scopes().len() - 1,
                old(self).scopes().last().remove(name@),
            ),
            final(self).procedures() == old(self).procedures(),
            final(self).shapes() == old(self).shapes(),
            final(self).base_directory() == old(self).base_directory(),
            final(self).last_error() == old(self).last_error(),
    {
        let last = self.scopes.len() - 1;
        self.scopes[last].remove(name);
        proof {
            let o = old(self).scopes();
            assert forall|j: int| 0 <= j < self.scopes@.len() implies #[trigger] self.scopes@[j].wf() by {
                if j != last {
                    assert(self.scopes@[j] == old(self).scopes@[j]);
                }
            }
            assert(token_map(self.scopes@[last as int].map()) =~= o.last().remove(name@));
            assert(self.scopes() =~= o.update(last as int, o.last().remove(name@)));
        }
    }

    /// Removes every variable of the innermost scope.
    pub fn remove_all_variables_in_scope(&mut self)
        requires
            old(self).wf(),
        ensures
            final(self).wf(),
            final(self).scopes() == old(self).scopes().update(
                old(self).scopes().len() - 1,
                Map::<Seq<char>, SToken>::empty(),
            ),
            final(self).procedures() == old(self).procedures(),
            final(self).shapes() == old(self).shapes(),
            final(self).base_directory() == old(self).base_directory(),
            final(self).last_error() == old(self).last_error(),
    {
        let last = self.scopes.len() - 1;
        self.scopes[last].clear();
        proof {
            let o = old(self).scopes();
            assert forall|j: int| 0 <= j < self.scopes@.len() implies #[trigger] self.scopes@[j].wf() by {
                if j != last {
                    assert(self.scopes@[j] == old(self).scopes@[j]);
                }
            }
            assert(token_map(self.scopes@[last as int].map()) =~= Map::<Seq<char>, SToken>::empty());
            assert(self.scopes() =~= o.update(last as int, Map::<Seq<char>, SToken>::empty()));
        }
    }

    /// The procedure called `name`, if any.
    pub fn get_procedure(&self, name: &str) -> (r: Option<&Procedure>)
        requires
            self.wf(),
        ensures
            match r {
                Some(p) => self.procedures().contains_key(name@) && *p == self.procedures()[name@],
                None => !self.procedures().contains_key(name@),
            },
    {
        self.procedures.get(name)
    }

    /// Every procedure, each once.
    pub fn get_all_procedures(&self) -> (r: Vec<&Procedure>)
        requires
            self.wf(),
        ensures
            r@.len() == self.procedures().dom().len(),
            forall|i: int|
                0 <= i < r@.len() ==> #[trigger] self.procedures().contains_key(r@[i].name@)
                    && self.procedures()[r@[i].name@] == *r@[i],
            forall|i: int, j: int|
                0 <= i < r@.len() && 0 <= j < r@.len() && i != j ==> r@[i].name@ != r@[j].name@,
            forall|name: Seq<char>|
                #[trigger] self.procedures().contains_key(name) ==> exists|i: int|
                    0 <= i < r@.len() && r@[i].name@ == name,
    {
        let r = self.procedures.values();
        proof {
            self.procedures.lemma_names();
            let names = self.procedures.names();
            assert forall|i: int| 0 <= i < r@.len() implies r@[i].name@ == names[i] by {
                assert(self.procedures.map().contains_key(names[i]));
            }
            assert forall|name: Seq<char>| #[trigger] self.procedures().contains_key(name) implies exists|i: int|
                0 <= i < r@.len() && r@[i].name@ == name by {
                assert(names.to_set().contains(name));
                let i = choose|i: int| 0 <= i < names.len() && names[i] == name;
                assert(r@[i].name@ == names[i]);
            }
        }
        r
    }

    /// Stores `procedure` under its name, replacing any procedure of that
    /// name.
    pub fn set_procedure(&mut self, procedure: Procedure)
        requires
            old(self).wf(),
        ensures
            final(self).wf(),
            final(self).scopes() == old(self).scopes(),
            final(self).procedures() == old(self).procedures().insert(
                procedure.name@,
                procedure,
            ),
            final(self).shapes() == old(self).shapes(),
            final(self).base_directory() == old(self).base_directory(),
            final(self).last_error() == old(self).last_error(),
    {
        let name = procedure.name.clone();
        self.procedures.insert(name, procedure);
    }

    /// The shape called `name`, if any.
    pub fn get_shape(&self, name: &str) -> (r: Option<&TurtleShape>)
        requires
            self.wf(),
        ensures
            match r {
                Some(s) => self.shapes().contains_key(name@) && *s == self.shapes()[name@],
                None => !self.shapes().contains_key(name@),
            },
    {
        self.shapes.get(name)
    }

    /// Stores `shape` under `name`, replacing any shape of that name.
    pub fn set_shape(&mut self, name: &str, shape: TurtleShape)
        requires
            old(self).wf(),
        ensures
            final(self).wf(),
            final(self).scopes() == old(self).scopes(),
            final(self).procedures() == old(self).procedures(),
            final(self).shapes() == old(self).shapes().insert(name@, shape),
            final(self).base_directory() == old(self).base_directory(),
            final(self).last_error() == old(self).last_error(),
    {
        self.shapes.insert(String::from_str(name), shape);
    }

    /// The directory that file names are read relative to.
    pub fn get_base_directory(&self) -> (r: &String)
        ensures
            r@ == self.base_directory(),
    {
        &self.base_file_directory
    }

    /// Sets the base directory to `dir`, with a `/` added at its end when
    /// it has none.
    pub fn set_base_directory(&mut self, dir: String)
        requires
            old(self).wf(),
        ensures
            final(self).wf(),
            final(self).base_directory() == as_directory(dir@),
            final(self).base_directory().last() == '/',
            final(self).scopes() == old(self).scopes(),
            final(self).procedures() == old(self).procedures(),
            final(self).shapes() == old(self).shapes(),
            final(self).last_error() == old(self).last_error(),
    {
        let chars = crate::text::chars_of(dir.as_str());
        let n = chars.len();
        if n > 0 && chars[n - 1] == '/' {
            self.base_file_directory = dir;
        } else {
            let mut d = dir;
            crate::text::push_char(&mut d, '/');
            self.base_file_directory = d;
        }
    }

    /// The message of the last error.
    pub fn get_last_error_message(&self) -> (r: String)
        ensures
            r@ == self.last_error(),
    {
        self.last_error_message.clone()
    }

    /// Records `message` as the message of the last error.
    pub fn set_last_error_message(&mut self, message: String)
        requires
            old(self).wf(),
        ensures
            final(self).wf(),
            final(self).last_error() == message@,
            final(self).scopes() == old(self).scopes(),
            final(self).procedures() == old(self).procedures(),
            final(self).shapes() == old(self).shapes(),
            final(self).base_directory() == old(self).base_directory(),
    {
        self.last_error_message = message;
    }
}

/// The innermost holder of a name and the value looked up agree: the value
/// read is the one in the scope that `scope_holding` names.
proof fn lemma_lookup_holding(scopes: Seq<Map<Seq<char>, SToken>>, name: Seq<char>)
    ensures
        match scope_holding(scopes, name) {
            Some(i) => 0 <= i < scopes.len() && scopes[i].contains_key(name) && scope_lookup(
                scopes,
                name,
            ) == Some(scopes[i][name]) && forall|j: int|
                i < j < scopes.len() ==> !(#[trigger] scopes[j].contains_key(name)),
            None => scope_lookup(scopes, name) is None && forall|j: int|
                0 <= j < scopes.len() ==> !(#[trigger] scopes[j].contains_key(name)),
        },
    decreases scopes.len(),
{
    if scopes.len() > 0 && !scopes.last().contains_key(name) {
        lemma_lookup_holding(scopes.drop_last(), name);
        let d = scopes.drop_last();
        assert forall|j: int| 0 <= j < d.len() implies d[j] == scopes[j] by {}
    }
}

/// The lookup of `name` only depends on the scopes that hold it, from the
/// innermost down: a scope above the innermost holder may be changed
/// freely as long as it still does not hold `name`.
proof fn lemma_lookup_after_update(
    scopes: Seq<Map<Seq<char>, SToken>>,
    i: int,
    m: Map<Seq<char>, SToken>,
    name: Seq<char>,
)
    requires
        0 <= i < scopes.len(),
        m.contains_key(name) == scopes[i].contains_key(name),
        scopes[i].contains_key(name) ==> m[name] == scopes[i][name],
    ensures
        scope_lookup(scopes.update(i, m), name) == scope_lookup(scopes, name),
    decreases scopes.len(),
{
    let u = scopes.update(i, m);
    if i < scopes.len() - 1 {
        assert(u.last() == scopes.last());
        if !scopes.last().contains_key(name) {
            assert(u.drop_last() =~= scopes.drop_last().update(i, m));
            lemma_lookup_after_update(scopes.drop_last(), i, m, name);
        }
    } else {
        assert(u.drop_last() =~= scopes.drop_last());
    }
}

/// A variable read right after it was set gives the value it was set to.
pub proof fn law_get_after_set(
    scopes: Seq<Map<Seq<char>, SToken>>,
    name: Seq<char>,
    value: SToken,
)
    requires
        scopes.len() >= 1,
    ensures
        scope_lookup(scope_assign(scopes, name, value), name) == Some(value),
{
    lemma_lookup_holding(scopes, name);
    let i = match scope_holding(scopes, name) {
        Some(i) => i,
        None => 0,
    };
    let u = scope_assign(scopes, name, value);
    assert(u == scopes.update(i, scopes[i].insert(name, value)));
    lemma_lookup_holding(u, name);
    match scope_holding(u, name) {
        Some(k) => {
            if k != i {
                assert(u[i].contains_key(name));
                if k < i {
                    assert(!u[i].contains_key(name));
                } else {
                    assert(u[k] == scopes[k]);
                }
            }
        },
        None => {
            assert(u[i].contains_key(name));
        },
    }
}

/// Setting a variable leaves the value of every other variable unchanged.
pub proof fn law_set_leaves_others(
    scopes: Seq<Map<Seq<char>, SToken>>,
    name: Seq<char>,
    other: Seq<char>,
    value: SToken,
)
    requires
        scopes.len() >= 1,
        other != name,
    ensures
        scope_lookup(scope_assign(scopes, name, value), other) == scope_lookup(scopes, other),
{
    let i = match scope_holding(scopes, name) {
        Some(i) => i,
        None => 0,
    };
    lemma_lookup_holding(scopes, name);
    lemma_lookup_after_update(scopes, i, scopes[i].insert(name, value), other);
}

/// Entering a scope and leaving it again gives back the scopes as they
/// were.
pub proof fn law_push_then_pop(scopes: Seq<Map<Seq<char>, SToken>>)
    requires
        scopes.len() >= 1,
    ensures
        scopes_after_pop(scopes.push(Map::<Seq<char>, SToken>::empty())) == scopes,
{
    assert(scopes.push(Map::<Seq<char>, SToken>::empty()).drop_last() =~= scopes);
}

/// Leaving a scope never leaves the global scope: one scope at least
/// remains, and the global scope is unchanged.
pub proof fn law_pop_keeps_global(scopes: Seq<Map<Seq<char>, SToken>>)
    requires
        scopes.len() >= 1,
    ensures
        scopes_after_pop(scopes).len() >= 1,
        scopes_after_pop(scopes)[0] == scopes[0],
{
}

/// A variable given a value in the innermost scope is read back with that
/// value, unless the innermost scope already held it, in which case
/// nothing changes.
pub proof fn law_get_after_init_local(
    scopes: Seq<Map<Seq<char>, SToken>>,
    name: Seq<char>,
    value: SToken,
)
    requires
        scopes.len() >= 1,
    ensures
        scope_lookup(scope_init_local(scopes, name, value), name) == if scopes.last().contains_key(
            name,
        ) {
            Some(scopes.last()[name])
        } else {
            Some(value)
        },
{
}

} // verus!
