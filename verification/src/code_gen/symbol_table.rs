//! A table of symbols with one namespace each for variables, types and
//! functions: a global table and a stack of local ones. A name is looked up
//! in the local tables from the innermost outwards, then in the global one;
//! a local name may hide an outer one of the same kind.
use vstd::prelude::*;

use crate::error::{CompileError, SCompileError};

verus! {

/// The value of the last entry of `name`.
pub open spec fn find_entry<X>(s: Seq<(Seq<char>, X)>, name: Seq<char>) -> Option<X>
    decreases s.len(),
{
    if s.len() == 0 {
        None
    } else if s.last().0 == name {
        Some(s.last().1)
    } else {
        find_entry(s.drop_last(), name)
    }
}

/// The value of `name` in the innermost of `locals` that has it, else in
/// `global`.
pub open spec fn scoped_find<X>(locals: Seq<Seq<(Seq<char>, X)>>, global: Seq<(Seq<char>, X)>, name: Seq<char>) -> Option<X>
    decreases locals.len(),
{
    if locals.len() == 0 {
        find_entry(global, name)
    } else {
        match find_entry(locals.last(), name) {
            Some(x) => Some(x),
            None => scoped_find(locals.drop_last(), global, name),
        }
    }
}

/// Names mapped to values, each name once.
pub struct Namespace<X> {
    entries: Vec<(String, X)>,
}

impl<X: Copy> Namespace<X> {
    pub closed spec fn view(&self) -> Seq<(Seq<char>, X)> {
        self.entries@.map_values(|e: (String, X)| (e.0@, e.1))
    }

    /// No name occurs twice.
    pub open spec fn wf(&self) -> bool {
        forall|j: int, k: int| 0 <= j < k < self.view().len() ==> #[trigger] self.view()[j].0 != #[trigger] self.view()[k].0
    }

    pub fn new() -> (r: Self)
        ensures
            r.view() == Seq::<(Seq<char>, X)>::empty(),
            r.wf(),
    {
        let r = Namespace { entries: Vec::new() };
        assert(r.view() =~= Seq::<(Seq<char>, X)>::empty());
        r
    }

    /// The value of `name`.
    pub fn get(&self, name: &str) -> (r: Option<X>)
        ensures
            r == find_entry(self.view(), name@),
    {
        let n = String::from_str(name);
        let ghost v = self.view();
        let mut j = self.entries.len();
        assert(v.subrange(0, j as int) =~= v);
        while j > 0
            invariant
                j <= self.entries@.len(),
                v == self.view(),
                n@ == name@,
                find_entry(v, name@) == find_entry(v.subrange(0, j as int), name@),
            decreases j,
        {
            j = j - 1;
            assert(v.subrange(0, j + 1).drop_last() =~= v.subrange(0, j as int));
            assert(v.subrange(0, j + 1).last() == v[j as int]);
            if self.entries[j].0 == n {
                return Some(self.entries[j].1);
            }
        }
        None
    }

    /// Adds `x` under `name` where the namespace does not have `name`;
    /// whether it did.
    pub fn insert(&mut self, name: String, x: X) -> (r: bool)
        requires
            old(self).wf(),
        ensures
            final(self).wf(),
            r == (find_entry(old(self).view(), name@) is None),
            r ==> final(self).view() == old(self).view().push((name@, x)),
            !r ==> final(self).view() == old(self).view(),
    {
        let present = self.get(name.as_str());
        if present.is_some() {
            return false;
        }
        proof {
            lemma_find_entry_none(self.view(), name@);
        }
        let ghost before = self.view();
        self.entries.push((name, x));
        assert(self.view() =~= before.push((name@, x)));
        proof {
            let after = self.view();
            assert forall|j: int, k: int| 0 <= j < k < after.len() implies #[trigger] after[j].0 != #[trigger] after[k].0 by {
                if k == before.len() {
                    assert(after[j] == before[j]);
                } else {
                    assert(after[j] == before[j] && after[k] == before[k]);
                }
            }
        }
        true
    }
}

/// A name that is not found is in no entry.
pub proof fn lemma_find_entry_none<X>(s: Seq<(Seq<char>, X)>, name: Seq<char>)
    requires
        find_entry(s, name) is None,
    ensures
        forall|j: int| 0 <= j < s.len() ==> #[trigger] s[j].0 != name,
    decreases s.len(),
{
    if s.len() > 0 {
        lemma_find_entry_none(s.drop_last(), name);
        assert forall|j: int| 0 <= j < s.len() implies #[trigger] s[j].0 != name by {
            if j < s.len() - 1 {
                assert(s.drop_last()[j] == s[j]);
            }
        }
    }
}

/// The three namespaces of one scope.
pub struct SymbolTable<T, V, F> {
    pub variables: Namespace<V>,
    pub types: Namespace<T>,
    pub functions: Namespace<F>,
}

impl<T: Copy, V: Copy, F: Copy> SymbolTable<T, V, F> {
    pub open spec fn wf(&self) -> bool {
        self.variables.wf() && self.types.wf() && self.functions.wf()
    }

    pub fn new() -> (r: Self)
        ensures
            r.wf(),
            r.variables.view() == Seq::<(Seq<char>, V)>::empty(),
            r.types.view() == Seq::<(Seq<char>, T)>::empty(),
            r.functions.view() == Seq::<(Seq<char>, F)>::empty(),
    {
        SymbolTable { variables: Namespace::new(), types: Namespace::new(), functions: Namespace::new() }
    }
}

/// The global scope and the stack of local ones.
pub struct CompilerContext<T, V, F> {
    global_symbols: SymbolTable<T, V, F>,
    local_symbols: Vec<SymbolTable<T, V, F>>,
}

impl<T: Copy, V: Copy, F: Copy> CompilerContext<T, V, F> {
    pub closed spec fn global(&self) -> SymbolTable<T, V, F> {
        self.global_symbols
    }

    pub closed spec fn locals(&self) -> Seq<SymbolTable<T, V, F>> {
        self.local_symbols@
    }

    pub open spec fn local_variables(&self) -> Seq<Seq<(Seq<char>, V)>> {
        self.locals().map_values(|t: SymbolTable<T, V, F>| t.variables.view())
    }

    pub open spec fn local_types(&self) -> Seq<Seq<(Seq<char>, T)>> {
        self.locals().map_values(|t: SymbolTable<T, V, F>| t.types.view())
    }

    pub open spec fn local_functions(&self) -> Seq<Seq<(Seq<char>, F)>> {
        self.locals().map_values(|t: SymbolTable<T, V, F>| t.functions.view())
    }

    pub open spec fn wf(&self) -> bool {
        &&& self.global().wf()
        &&& forall|i: int| 0 <= i < self.locals().len() ==> (#[trigger] self.locals()[i]).wf()
    }

    /// An empty global scope and one empty local scope.
    pub fn new() -> (r: Self)
        ensures
            r.wf(),
            r.locals().len() == 1,
            r.locals()[0].variables.view().len() == 0,
            r.locals()[0].types.view().len() == 0,
            r.locals()[0].functions.view().len() == 0,
            r.global().variables.view().len() == 0,
            r.global().types.view().len() == 0,
            r.global().functions.view().len() == 0,
    {
        let mut locals = Vec::new();
        locals.push(SymbolTable::new());
        CompilerContext { global_symbols: SymbolTable::new(), local_symbols: locals }
    }
}

impl<T: Copy, V: Copy, F: Copy> CompilerContext<T, V, F> {
    /// The variable `name`, looked up in the local scopes from the innermost
    /// outwards, then in the global one.
    pub fn get_variable(&self, name: &str) -> (r: Result<V, CompileError>)
        requires
            self.wf(),
        ensures
            match scoped_find(self.local_variables(), self.global().variables.view(), name@) {
                Some(x) => r == Ok::<V, CompileError>(x),
                None => r matches Err(e) && e@ == SCompileError::IdentifierIsNotVariable(name@),
            },
    {
        let ghost locals = self.local_variables();
        let mut i = self.local_symbols.len();
        proof {
            assert(locals.subrange(0, i as int) =~= locals);
        }
        while i > 0
            invariant
                i <= self.local_symbols@.len(),
                locals == self.local_variables(),
                scoped_find(locals, self.global().variables.view(), name@) == scoped_find(
                    locals.subrange(0, i as int),
                    self.global().variables.view(),
                    name@,
                ),
            decreases i,
        {
            i = i - 1;
            assert(locals.subrange(0, i + 1).drop_last() =~= locals.subrange(0, i as int));
            assert(locals.subrange(0, i + 1).last() == self.locals()[i as int].variables.view());
            match self.local_symbols[i].variables.get(name) {
                Some(x) => {
                    return Ok(x);
                },
                None => {},
            }
        }
        match self.global_symbols.variables.get(name) {
            Some(x) => Ok(x),
            None => Err(CompileError::IdentifierIsNotVariable { identifier: String::from_str(name) }),
        }
    }

    /// The type `name`, looked up in the local scopes from the innermost
    /// outwards, then in the global one.
    pub fn get_type(&self, name: &str) -> (r: Result<T, CompileError>)
        requires
            self.wf(),
        ensures
            match scoped_find(self.local_types(), self.global().types.view(), name@) {
                Some(x) => r == Ok::<T, CompileError>(x),
                None => r matches Err(e) && e@ == SCompileError::IdentifierIsNotType(name@),
            },
    {
        let ghost locals = self.local_types();
        let mut i = self.local_symbols.len();
        proof {
            assert(locals.subrange(0, i as int) =~= locals);
        }
        while i > 0
            invariant
                i <= self.local_symbols@.len(),
                locals == self.local_types(),
                scoped_find(locals, self.global().types.view(), name@) == scoped_find(
                    locals.subrange(0, i as int),
                    self.global().types.view(),
                    name@,
                ),
            decreases i,
        {
            i = i - 1;
            assert(locals.subrange(0, i + 1).drop_last() =~= locals.subrange(0, i as int));
            assert(locals.subrange(0, i + 1).last() == self.locals()[i as int].types.view());
            match self.local_symbols[i].types.get(name) {
                Some(x) => {
                    return Ok(x);
                },
                None => {},
            }
        }
        match self.global_symbols.types.get(name) {
            Some(x) => Ok(x),
            None => Err(CompileError::IdentifierIsNotType { identifier: String::from_str(name) }),
        }
    }

    /// The function `name`, looked up in the local scopes from the innermost
    /// outwards, then in the global one.
    pub fn get_function(&self, name: &str) -> (r: Result<F, CompileError>)
        requires
            self.wf(),
        ensures
            match scoped_find(self.local_functions(), self.global().functions.view(), name@) {
                Some(x) => r == Ok::<F, CompileError>(x),
                None => r matches Err(e) && e@ == SCompileError::IdentifierIsNotFunction(name@),
            },
    {
        let ghost locals = self.local_functions();
        let mut i = self.local_symbols.len();
        proof {
            assert(locals.subrange(0, i as int) =~= locals);
        }
        while i > 0
            invariant
                i <= self.local_symbols@.len(),
                locals == self.local_functions(),
                scoped_find(locals, self.global().functions.view(), name@) == scoped_find(
                    locals.subrange(0, i as int),
                    self.global().functions.view(),
                    name@,
                ),
            decreases i,
        {
            i = i - 1;
            assert(locals.subrange(0, i + 1).drop_last() =~= locals.subrange(0, i as int));
            assert(locals.subrange(0, i + 1).last() == self.locals()[i as int].functions.view());
            match self.local_symbols[i].functions.get(name) {
                Some(x) => {
                    return Ok(x);
                },
                None => {},
            }
        }
        match self.global_symbols.functions.get(name) {
            Some(x) => Ok(x),
            None => Err(CompileError::IdentifierIsNotFunction { identifier: String::from_str(name) }),
        }
    }

    /// Adds a global variable, unless the global scope has one of that
    /// name; the error names the kind `variable`.
    pub fn insert_global_variable(&mut self, name: String, value: V) -> (r: Result<(), CompileError>)
        requires
            old(self).wf(),
        ensures
            final(self).wf(),
            final(self).locals() == old(self).locals(),
            match find_entry(old(self).global().variables.view(), name@) {
                None => r is Ok && final(self).global().variables.view() == old(self).global().variables.view().push((name@, value)),
                Some(_) => r matches Err(e) && e@ == SCompileError::IdentifierAlreadyDefinedAs(name@, "variable"@)
                    && final(self).global().variables.view() == old(self).global().variables.view(),
            },
            final(self).global().types.view() == old(self).global().types.view(),
            final(self).global().functions.view() == old(self).global().functions.view(),
    {
        let kept = name.clone();
        let added = self.global_symbols.variables.insert(name, value);
        proof {
            assert forall|i: int| 0 <= i < self.locals().len() implies (#[trigger] self.locals()[i]).wf() by {
                assert(self.locals()[i] == old(self).locals()[i]);
            }
        }
        if added {
            Ok(())
        } else {
            Err(CompileError::IdentifierAlreadyDefinedAs { identifier: kept, kind: String::from_str("variable") })
        }
    }

    /// Adds a variable to the innermost scope, unless that scope has one of
    /// that name; the error names the kind `type`.
    pub fn insert_local_variable(&mut self, name: String, value: V) -> (r: Result<(), CompileError>)
        requires
            old(self).wf(),
            old(self).locals().len() >= 1,
        ensures
            final(self).wf(),
            final(self).global() == old(self).global(),
            final(self).locals().len() == old(self).locals().len(),
            forall|i: int| 0 <= i < old(self).locals().len() - 1 ==> #[trigger] final(self).locals()[i] == old(self).locals()[i],
            match find_entry(old(self).locals().last().variables.view(), name@) {
                None => r is Ok && final(self).locals().last().variables.view() == old(self).locals().last().variables.view().push((name@, value)),
                Some(_) => r matches Err(e) && e@ == SCompileError::IdentifierAlreadyDefinedAs(name@, "type"@)
                    && final(self).locals().last().variables.view() == old(self).locals().last().variables.view(),
            },
            final(self).locals().last().types.view() == old(self).locals().last().types.view(),
            final(self).locals().last().functions.view() == old(self).locals().last().functions.view(),
    {
        let kept = name.clone();
        let mut last = self.local_symbols.pop().unwrap();
        let added = last.variables.insert(name, value);
        self.local_symbols.push(last);
        proof {
            assert(self.locals() =~= old(self).locals().drop_last().push(last));
        }
        if added {
            Ok(())
        } else {
            Err(CompileError::IdentifierAlreadyDefinedAs { identifier: kept, kind: String::from_str("type") })
        }
    }

    /// Adds a global type, unless the global scope has one of that
    /// name; the error names the kind `type`.
    pub fn insert_global_type(&mut self, name: String, value: T) -> (r: Result<(), CompileError>)
        requires
            old(self).wf(),
        ensures
            final(self).wf(),
            final(self).locals() == old(self).locals(),
            match find_entry(old(self).global().types.view(), name@) {
                None => r is Ok && final(self).global().types.view() == old(self).global().types.view().push((name@, value)),
                Some(_) => r matches Err(e) && e@ == SCompileError::IdentifierAlreadyDefinedAs(name@, "type"@)
                    && final(self).global().types.view() == old(self).global().types.view(),
            },
            final(self).global().variables.view() == old(self).global().variables.view(),
            final(self).global().functions.view() == old(self).global().functions.view(),
    {
        let kept = name.clone();
        let added = self.global_symbols.types.insert(name, value);
        proof {
            assert forall|i: int| 0 <= i < self.locals().len() implies (#[trigger] self.locals()[i]).wf() by {
                assert(self.locals()[i] == old(self).locals()[i]);
            }
        }
        if added {
            Ok(())
        } else {
            Err(CompileError::IdentifierAlreadyDefinedAs { identifier: kept, kind: String::from_str("type") })
        }
    }

    /// Adds a type to the innermost scope, unless that scope has one of
    /// that name; the error names the kind `variable`.
    pub fn insert_local_type(&mut self, name: String, value: T) -> (r: Result<(), CompileError>)
        requires
            old(self).wf(),
            old(self).locals().len() >= 1,
        ensures
            final(self).wf(),
            final(self).global() == old(self).global(),
            final(self).locals().len() == old(self).locals().len(),
            forall|i: int| 0 <= i < old(self).locals().len() - 1 ==> #[trigger] final(self).locals()[i] == old(self).locals()[i],
            match find_entry(old(self).locals().last().types.view(), name@) {
                None => r is Ok && final(self).locals().last().types.view() == old(self).locals().last().types.view().push((name@, value)),
                Some(_) => r matches Err(e) && e@ == SCompileError::IdentifierAlreadyDefinedAs(name@, "variable"@)
                    && final(self).locals().last().types.view() == old(self).locals().last().types.view(),
            },
            final(self).locals().last().variables.view() == old(self).locals().last().variables.view(),
            final(self).locals().last().functions.view() == old(self).locals().last().functions.view(),
    {
        let kept = name.clone();
        let mut last = self.local_symbols.pop().unwrap();
        let added = last.types.insert(name, value);
        self.local_symbols.push(last);
        proof {
            assert(self.locals() =~= old(self).locals().drop_last().push(last));
        }
        if added {
            Ok(())
        } else {
            Err(CompileError::IdentifierAlreadyDefinedAs { identifier: kept, kind: String::from_str("variable") })
        }
    }

    /// Adds a global function, unless the global scope has one of that
    /// name; the error names the kind `function`.
    pub fn insert_global_function(&mut self, name: String, value: F) -> (r: Result<(), CompileError>)
        requires
            old(self).wf(),
        ensures
            final(self).wf(),
            final(self).locals() == old(self).locals(),
            match find_entry(old(self).global().functions.view(), name@) {
                None => r is Ok && final(self).global().functions.view() == old(self).global().functions.view().push((name@, value)),
                Some(_) => r matches Err(e) && e@ == SCompileError::IdentifierAlreadyDefinedAs(name@, "function"@)
                    && final(self).global().functions.view() == old(self).global().functions.view(),
            },
            final(self).global().variables.view() == old(self).global().variables.view(),
            final(self).global().types.view() == old(self).global().types.view(),
    {
        let kept = name.clone();
        let added = self.global_symbols.functions.insert(name, value);
        proof {
            assert forall|i: int| 0 <= i < self.locals().len() implies (#[trigger] self.locals()[i]).wf() by {
                assert(self.locals()[i] == old(self).locals()[i]);
            }
        }
        if added {
            Ok(())
        } else {
            Err(CompileError::IdentifierAlreadyDefinedAs { identifier: kept, kind: String::from_str("function") })
        }
    }

    /// Adds a function to the innermost scope, unless that scope has one of
    /// that name; the error names the kind `function`.
    pub fn insert_local_function(&mut self, name: String, value: F) -> (r: Result<(), CompileError>)
        requires
            old(self).wf(),
            old(self).locals().len() >= 1,
        ensures
            final(self).wf(),
            final(self).global() == old(self).global(),
            final(self).locals().len() == old(self).locals().len(),
            forall|i: int| 0 <= i < old(self).locals().len() - 1 ==> #[trigger] final(self).locals()[i] == old(self).locals()[i],
            match find_entry(old(self).locals().last().functions.view(), name@) {
                None => r is Ok && final(self).locals().last().functions.view() == old(self).locals().last().functions.view().push((name@, value)),
                Some(_) => r matches Err(e) && e@ == SCompileError::IdentifierAlreadyDefinedAs(name@, "function"@)
                    && final(self).locals().last().functions.view() == old(self).locals().last().functions.view(),
            },
            final(self).locals().last().variables.view() == old(self).locals().last().variables.view(),
            final(self).locals().last().types.view() == old(self).locals().last().types.view(),
    {
        let kept = name.clone();
        let mut last = self.local_symbols.pop().unwrap();
        let added = last.functions.insert(name, value);
        self.local_symbols.push(last);
        proof {
            assert(self.locals() =~= old(self).locals().drop_last().push(last));
        }
        if added {
            Ok(())
        } else {
            Err(CompileError::IdentifierAlreadyDefinedAs { identifier: kept, kind: String::from_str("function") })
        }
    }

    /// Opens a new innermost scope.
    pub fn push_block_table(&mut self)
        requires
            old(self).wf(),
        ensures
            final(self).wf(),
            final(self).global() == old(self).global(),
            final(self).locals() == old(self).locals().push(final(self).locals().last()),
            final(self).locals().last().variables.view().len() == 0,
            final(self).locals().last().types.view().len() == 0,
            final(self).locals().last().functions.view().len() == 0,
    {
        self.local_symbols.push(SymbolTable::new());
        proof {
            assert forall|i: int| 0 <= i < self.locals().len() implies (#[trigger] self.locals()[i]).wf() by {
                if i < old(self).locals().len() {
                    assert(self.locals()[i] == old(self).locals()[i]);
                }
            }
        }
    }

    /// Closes the innermost scope, if there is one.
    pub fn pop_block_table(&mut self)
        requires
            old(self).wf(),
        ensures
            final(self).wf(),
            final(self).global() == old(self).global(),
            final(self).locals() == if old(self).locals().len() == 0 {
                old(self).locals()
            } else {
                old(self).locals().drop_last()
            },
    {
        self.local_symbols.pop();
        proof {
            assert forall|i: int| 0 <= i < self.locals().len() implies (#[trigger] self.locals()[i]).wf() by {
                assert(self.locals()[i] == old(self).locals()[i]);
            }
        }
    }

    /// Drops every local scope and opens one empty one; the global scope
    /// stays.
    pub fn clear_local_symbols(&mut self)
        requires
            old(self).wf(),
        ensures
            final(self).wf(),
            final(self).global() == old(self).global(),
            final(self).locals().len() == 1,
            final(self).locals()[0].variables.view().len() == 0,
            final(self).locals()[0].types.view().len() == 0,
            final(self).locals()[0].functions.view().len() == 0,
    {
        self.local_symbols.clear();
        self.local_symbols.push(SymbolTable::new());
    }
}

/// A name given to the innermost scope is found there, hiding any outer
/// one; other names are found as before.
pub proof fn law_local_insert_found<X>(
    locals: Seq<Seq<(Seq<char>, X)>>,
    global: Seq<(Seq<char>, X)>,
    name: Seq<char>,
    x: X,
    other: Seq<char>,
)
    requires
        locals.len() >= 1,
    ensures
        scoped_find(locals.update(locals.len() - 1, locals.last().push((name, x))), global, name)
            == Some(x),
        other != name ==> scoped_find(
            locals.update(locals.len() - 1, locals.last().push((name, x))),
            global,
            other,
        ) == scoped_find(locals, global, other),
{
    let after = locals.update(locals.len() - 1, locals.last().push((name, x)));
    assert(after.drop_last() =~= locals.drop_last());
    assert(after.last().drop_last() =~= locals.last());
}

/// A name given to the global scope is found where no local scope has it;
/// other names are found as before.
pub proof fn law_global_insert_found<X>(
    locals: Seq<Seq<(Seq<char>, X)>>,
    global: Seq<(Seq<char>, X)>,
    name: Seq<char>,
    x: X,
    other: Seq<char>,
)
    requires
        forall|i: int| 0 <= i < locals.len() ==> find_entry(#[trigger] locals[i], name) is None,
    ensures
        scoped_find(locals, global.push((name, x)), name) == Some(x),
        other != name ==> scoped_find(locals, global.push((name, x)), other) == scoped_find(
            locals,
            global,
            other,
        ),
    decreases locals.len(),
{
    if locals.len() == 0 {
        assert(global.push((name, x)).drop_last() =~= global);
    } else {
        let inner = locals.drop_last();
        assert(forall|i: int| 0 <= i < inner.len() ==> #[trigger] inner[i] == locals[i]);
        assert(find_entry(locals[locals.len() - 1], name) is None);
        law_global_insert_found(inner, global, name, x, other);
    }
}

/// Opening an empty scope hides no name, and closing it again gives back
/// the scopes as they were.
pub proof fn law_pop_undoes_push<X>(
    locals: Seq<Seq<(Seq<char>, X)>>,
    global: Seq<(Seq<char>, X)>,
    name: Seq<char>,
)
    ensures
        scoped_find(locals.push(Seq::empty()), global, name) == scoped_find(locals, global, name),
        locals.push(Seq::empty()).drop_last() == locals,
{
    assert(locals.push(Seq::empty()).drop_last() =~= locals);
}

} // verus!
