//! The scoped table of symbols: a stack of scopes, the first the global
//! one, each mapping names to types, variables and functions. A name is
//! looked up from the innermost scope outwards.
//!
//! The handles of the LLVM values that the symbols stand for (a user defined
//! type `D`, a variable's pointer `V`, a function `F`) are carried through as
//! they are.
use vstd::prelude::*;

use crate::ast::nodes::{STypeDecl, TypeDeclarator};
use crate::code_generator::le_type::{LEFloatType, LEIntegerType};
use crate::error::{CompileError, SCompileError};
use crate::lexer::Position;

verus! {

/// Where a symbol was defined, and whether the language defines it.
#[derive(Clone, Copy, Debug, PartialEq, Eq, Structural)]
pub struct MetaData {
    pub defined_pos: Position,
    pub is_built_in: bool,
}

/// A type: one of the language's own, or one that the program defines.
#[derive(Clone, Copy, Debug)]
pub enum LEBasicType<D> {
    Integer(LEIntegerType),
    Float(LEFloatType),
    Bool,
    Defined(D),
}

#[derive(Clone, Copy, Debug)]
pub struct Type<D> {
    pub inner: LEBasicType<D>,
    pub meta: MetaData,
}

#[derive(Clone, Copy, Debug)]
pub struct Variable<V> {
    pub pointer: V,
    pub meta: MetaData,
}

#[derive(Clone, Copy, Debug)]
pub struct Function<F> {
    pub inner: F,
    pub meta: MetaData,
}

/// What a name stands for.
#[derive(Clone, Copy, Debug)]
pub enum Symbol<D, V, F> {
    Type(Type<D>),
    Variable(Variable<V>),
    Function(Function<F>),
}

impl<D, V, F> Symbol<D, V, F> {
    pub open spec fn meta(self) -> MetaData {
        match self {
            Symbol::Type(t) => t.meta,
            Symbol::Variable(v) => v.meta,
            Symbol::Function(f) => f.meta,
        }
    }

    /// Whether the language defines the symbol.
    pub fn is_builtin(&self) -> (r: bool)
        ensures
            r == self.meta().is_built_in,
    {
        match self {
            Symbol::Type(v) => v.meta.is_built_in,
            Symbol::Variable(v) => v.meta.is_built_in,
            Symbol::Function(v) => v.meta.is_built_in,
        }
    }

    /// Where the symbol was defined.
    pub fn defined_pos(&self) -> (r: Position)
        ensures
            r == self.meta().defined_pos,
    {
        match self {
            Symbol::Type(v) => v.meta.defined_pos,
            Symbol::Variable(v) => v.meta.defined_pos,
            Symbol::Function(v) => v.meta.defined_pos,
        }
    }
}

pub type Scope<D, V, F> = Seq<(Seq<char>, Symbol<D, V, F>)>;

/// The symbol of `name` in one scope: its last entry of that name.
pub open spec fn find_in_scope<D, V, F>(s: Scope<D, V, F>, name: Seq<char>) -> Option<
    Symbol<D, V, F>,
>
    decreases s.len(),
{
    if s.len() == 0 {
        None
    } else if s.last().0 == name {
        Some(s.last().1)
    } else {
        find_in_scope(s.drop_last(), name)
    }
}

/// The symbol of `name` in the innermost scope that has one.
pub open spec fn lookup<D, V, F>(scopes: Seq<Scope<D, V, F>>, name: Seq<char>) -> Option<
    Symbol<D, V, F>,
>
    decreases scopes.len(),
{
    if scopes.len() == 0 {
        None
    } else {
        match find_in_scope(scopes.last(), name) {
            Some(s) => Some(s),
            None => lookup(scopes.drop_last(), name),
        }
    }
}

/// No name occurs twice in a scope.
pub open spec fn distinct_names<D, V, F>(s: Scope<D, V, F>) -> bool {
    forall|j: int, k: int| 0 <= j < k < s.len() ==> #[trigger] s[j].0 != #[trigger] s[k].0
}

/// The error of a redefinition of a name whose symbol is `existing`.
pub open spec fn redefinition_error<D, V, F>(name: Seq<char>, existing: Symbol<D, V, F>) -> SCompileError {
    if existing.meta().is_built_in {
        SCompileError::CanNotRedefineBuiltinTypes(name)
    } else {
        SCompileError::IdentifierAlreadyDefined(name, existing.meta().defined_pos)
    }
}

/// The outcome of adding `symbol` under `name` to the global scope of
/// `before`: the error of a redefinition where that scope has the name,
/// else the scopes `after` with the entry added.
pub open spec fn inserted_global<D, V, F>(
    before: Seq<Scope<D, V, F>>,
    after: Seq<Scope<D, V, F>>,
    name: Seq<char>,
    symbol: Symbol<D, V, F>,
    r: Result<(), CompileError>,
) -> bool {
    match find_in_scope(before[0], name) {
        Some(existing) => r matches Err(e) && e@ == redefinition_error(name, existing) && after
            == before,
        None => r is Ok && after == before.update(0, before[0].push((name, symbol))),
    }
}

/// The outcome of adding `symbol` under `name` to the innermost scope of
/// `before`: the error of a redefinition where any scope has the name, else
/// the scopes `after` with the entry added.
pub open spec fn inserted_local<D, V, F>(
    before: Seq<Scope<D, V, F>>,
    after: Seq<Scope<D, V, F>>,
    name: Seq<char>,
    symbol: Symbol<D, V, F>,
    r: Result<(), CompileError>,
) -> bool {
    match lookup(before, name) {
        Some(existing) => r matches Err(e) && e@ == redefinition_error(name, existing) && after
            == before,
        None => r is Ok && after == before.update(
            before.len() - 1,
            before.last().push((name, symbol)),
        ),
    }
}

/// A stack of scopes of symbols.
pub struct SymbolTable<D, V, F> {
    table: Vec<Vec<(String, Symbol<D, V, F>)>>,
}

pub open spec fn scope_view<D, V, F>(s: Vec<(String, Symbol<D, V, F>)>) -> Scope<D, V, F> {
    s@.map_values(|e: (String, Symbol<D, V, F>)| (e.0@, e.1))
}

/// The position that the language's own types are defined at.
pub open spec fn builtin_pos() -> Position {
    Position { start: 0, end: 0 }
}

pub open spec fn builtin_type<D, V, F>(inner: LEBasicType<D>) -> Symbol<D, V, F> {
    Symbol::Type(Type { inner, meta: MetaData { defined_pos: builtin_pos(), is_built_in: true } })
}

/// The global scope that a new table starts with: the language's own types.
pub open spec fn builtin_scope<D, V, F>() -> Scope<D, V, F> {
    seq![
        ("bool"@, builtin_type(LEBasicType::Bool)),
        ("i8"@, builtin_type(LEBasicType::Integer(LEIntegerType { signed: true, width: 8 }))),
        ("i16"@, builtin_type(LEBasicType::Integer(LEIntegerType { signed: true, width: 16 }))),
        ("i32"@, builtin_type(LEBasicType::Integer(LEIntegerType { signed: true, width: 32 }))),
        ("i64"@, builtin_type(LEBasicType::Integer(LEIntegerType { signed: true, width: 64 }))),
        ("u8"@, builtin_type(LEBasicType::Integer(LEIntegerType { signed: false, width: 8 }))),
        ("u16"@, builtin_type(LEBasicType::Integer(LEIntegerType { signed: false, width: 16 }))),
        ("u32"@, builtin_type(LEBasicType::Integer(LEIntegerType { signed: false, width: 32 }))),
        ("u64"@, builtin_type(LEBasicType::Integer(LEIntegerType { signed: false, width: 64 }))),
        ("f32"@, builtin_type(LEBasicType::Float(LEFloatType { width: 32 }))),
        ("f64"@, builtin_type(LEBasicType::Float(LEFloatType { width: 64 }))),
    ]
}

impl<D: Copy, V: Copy, F: Copy> SymbolTable<D, V, F> {
    /// The scopes, the global one first.
    pub closed spec fn scopes(&self) -> Seq<Scope<D, V, F>> {
        self.table@.map_values(|s: Vec<(String, Symbol<D, V, F>)>| scope_view(s))
    }

    /// No name occurs twice in a scope.
    pub open spec fn wf(&self) -> bool {
        forall|i: int| 0 <= i < self.scopes().len() ==> distinct_names(#[trigger] self.scopes()[i])
    }
}

impl<D: Copy, V: Copy, F: Copy> SymbolTable<D, V, F> {
    fn builtin(name: &str, inner: LEBasicType<D>) -> (r: (String, Symbol<D, V, F>))
        ensures
            r.0@ == name@,
            r.1 == builtin_type::<D, V, F>(inner),
    {
        (
            String::from_str(name),
            Symbol::Type(
                Type { inner, meta: MetaData { defined_pos: Position { start: 0, end: 0 }, is_built_in: true } },
            ),
        )
    }

    /// A table of one scope, the global one, that holds the language's own
    /// types: `bool`, `i8` to `i64`, `u8` to `u64`, `f32` and `f64`.
    pub fn new() -> (r: Self)
        ensures
            r.scopes() == seq![builtin_scope::<D, V, F>()],
            r.wf(),
    {
        let mut global: Vec<(String, Symbol<D, V, F>)> = Vec::new();
        global.push(Self::builtin("bool", LEBasicType::Bool));
        global.push(Self::builtin("i8", LEBasicType::Integer(LEIntegerType { signed: true, width: 8 })));
        global.push(Self::builtin("i16", LEBasicType::Integer(LEIntegerType { signed: true, width: 16 })));
        global.push(Self::builtin("i32", LEBasicType::Integer(LEIntegerType { signed: true, width: 32 })));
        global.push(Self::builtin("i64", LEBasicType::Integer(LEIntegerType { signed: true, width: 64 })));
        global.push(Self::builtin("u8", LEBasicType::Integer(LEIntegerType { signed: false, width: 8 })));
        global.push(Self::builtin("u16", LEBasicType::Integer(LEIntegerType { signed: false, width: 16 })));
        global.push(Self::builtin("u32", LEBasicType::Integer(LEIntegerType { signed: false, width: 32 })));
        global.push(Self::builtin("u64", LEBasicType::Integer(LEIntegerType { signed: false, width: 64 })));
        global.push(Self::builtin("f32", LEBasicType::Float(LEFloatType { width: 32 })));
        global.push(Self::builtin("f64", LEBasicType::Float(LEFloatType { width: 64 })));
        proof {
            reveal_strlit("bool");
            reveal_strlit("i8");
            reveal_strlit("i16");
            reveal_strlit("i32");
            reveal_strlit("i64");
            reveal_strlit("u8");
            reveal_strlit("u16");
            reveal_strlit("u32");
            reveal_strlit("u64");
            reveal_strlit("f32");
            reveal_strlit("f64");
            assert(scope_view(global) =~= builtin_scope::<D, V, F>());
        }
        let mut table = Vec::new();
        table.push(global);
        let r = SymbolTable { table };
        proof {
            assert(r.scopes() =~= seq![builtin_scope::<D, V, F>()]);
            let b = builtin_scope::<D, V, F>();
            assert forall|j: int, k: int| 0 <= j < k < b.len() implies #[trigger] b[j].0 != #[trigger] b[k].0 by {
                if b[j].0 == b[k].0 {
                    assert(b[j].0.len() == b[k].0.len());
                    assert(b[j].0[0] == b[k].0[0]);
                    assert(b[j].0[1] == b[k].0[1]);
                }
            }
        }
        r
    }
}

/// A name that no entry of a scope has is not found in it, and one that an
/// entry has is.
pub proof fn lemma_find_in_scope<D, V, F>(s: Scope<D, V, F>, name: Seq<char>)
    ensures
        find_in_scope(s, name) is None <==> forall|j: int| 0 <= j < s.len() ==> #[trigger] s[j].0 != name,
        find_in_scope(s, name) matches Some(x) ==> exists|j: int| 0 <= j < s.len() && #[trigger] s[j] == (name, x),
    decreases s.len(),
{
    if s.len() > 0 {
        lemma_find_in_scope(s.drop_last(), name);
        if find_in_scope(s, name) is None {
            assert forall|j: int| 0 <= j < s.len() implies #[trigger] s[j].0 != name by {
                if j < s.len() - 1 {
                    assert(s.drop_last()[j] == s[j]);
                }
            }
        } else {
            if s.last().0 != name {
                let x = find_in_scope(s, name)->0;
                let j = choose|j: int| 0 <= j < s.drop_last().len() && #[trigger] s.drop_last()[j] == (name, x);
                assert(s[j] == s.drop_last()[j]);
            } else {
                assert(s[s.len() - 1] == (name, s.last().1));
            }
        }
        if forall|j: int| 0 <= j < s.len() ==> #[trigger] s[j].0 != name {
            assert(s[s.len() - 1].0 != name);
            assert forall|j: int| 0 <= j < s.drop_last().len() implies #[trigger] s.drop_last()[j].0 != name by {
                assert(s.drop_last()[j] == s[j]);
            }
        }
    }
}

/// The symbol of `name` in `scope`, looked for from the last entry.
fn find_in_scope_exec<D: Copy, V: Copy, F: Copy>(scope: &Vec<(String, Symbol<D, V, F>)>, name: &String) -> (r: Option<Symbol<D, V, F>>)
    ensures
        r == find_in_scope(scope_view(*scope), name@),
{
    let ghost sv = scope_view(*scope);
    let mut j = scope.len();
    proof {
        assert(sv.subrange(0, j as int) =~= sv);
    }
    while j > 0
        invariant
            j <= scope@.len(),
            sv == scope_view(*scope),
            find_in_scope(sv, name@) == find_in_scope(sv.subrange(0, j as int), name@),
        decreases j,
    {
        j = j - 1;
        let ghost pre = sv.subrange(0, j + 1);
        assert(pre.drop_last() =~= sv.subrange(0, j as int));
        assert(pre.last() == sv[j as int]);
        if scope[j].0 == *name {
            return Some(scope[j].1);
        }
    }
    None
}

impl<D: Copy, V: Copy, F: Copy> SymbolTable<D, V, F> {
    /// The symbol of `identifier` in the innermost scope that has one.
    pub fn get_symbol(&self, identifier: &str) -> (r: Option<Symbol<D, V, F>>)
        ensures
            r == lookup(self.scopes(), identifier@),
    {
        let name = String::from_str(identifier);
        let ghost sc = self.scopes();
        let mut i = self.table.len();
        proof {
            assert(sc.subrange(0, i as int) =~= sc);
        }
        while i > 0
            invariant
                i <= self.table@.len(),
                sc == self.scopes(),
                name@ == identifier@,
                lookup(sc, name@) == lookup(sc.subrange(0, i as int), name@),
            decreases i,
        {
            i = i - 1;
            let ghost pre = sc.subrange(0, i + 1);
            assert(pre.drop_last() =~= sc.subrange(0, i as int));
            assert(pre.last() == scope_view(self.table@[i as int]));
            let found = find_in_scope_exec(&self.table[i], &name);
            if found.is_some() {
                return found;
            }
        }
        None
    }
}

/// Adding to a scope an entry whose name it does not have keeps its names
/// distinct.
pub proof fn lemma_push_distinct<D, V, F>(s: Scope<D, V, F>, name: Seq<char>, x: Symbol<D, V, F>)
    requires
        distinct_names(s),
        find_in_scope(s, name) is None,
    ensures
        distinct_names(s.push((name, x))),
{
    lemma_find_in_scope(s, name);
    let t = s.push((name, x));
    assert forall|j: int, k: int| 0 <= j < k < t.len() implies #[trigger] t[j].0 != #[trigger] t[k].0 by {
        if k == s.len() {
            assert(t[j] == s[j]);
        } else {
            assert(t[j] == s[j]);
            assert(t[k] == s[k]);
        }
    }
}

impl<D: Copy, V: Copy, F: Copy> SymbolTable<D, V, F> {
    fn redefinition(name: String, existing: &Symbol<D, V, F>) -> (r: CompileError)
        ensures
            r@ == redefinition_error(name@, *existing),
    {
        if !existing.is_builtin() {
            CompileError::IdentifierAlreadyDefined { identifier: name, defined_position: existing.defined_pos() }
        } else {
            CompileError::CanNotRedefineBuiltinTypes { identifier: name }
        }
    }

    /// Adds `symbol` to the global scope under `name`, unless the global
    /// scope has that name: then the error says where it was defined, or
    /// that the language defines it.
    pub fn insert_global_symbol(&mut self, name: String, symbol: Symbol<D, V, F>) -> (r: Result<(), CompileError>)
        requires
            old(self).scopes().len() >= 1,
            old(self).wf(),
        ensures
            final(self).wf(),
            inserted_global(old(self).scopes(), final(self).scopes(), name@, symbol, r),
    {
        let ghost sc = self.scopes();
        let found = find_in_scope_exec(&self.table[0], &name);
        match found {
            Some(existing) => {
                return Err(Self::redefinition(name, &existing));
            },
            None => {
                proof {
                    lemma_push_distinct(sc[0], name@, symbol);
                }
                let mut global = self.table.remove(0);
                let ghost g0 = global;
                global.push((name, symbol));
                assert(scope_view(global) =~= scope_view(g0).push((name@, symbol)));
                self.table.insert(0, global);
                assert(self.scopes() =~= sc.update(0, sc[0].push((name@, symbol))));
                Ok(())
            },
        }
    }

    /// Adds `symbol` to the innermost scope under `name`, unless some scope
    /// has that name: a name is neither redefined nor shadowed.
    pub fn insert_local_symbol(&mut self, name: String, symbol: Symbol<D, V, F>) -> (r: Result<(), CompileError>)
        requires
            old(self).scopes().len() >= 1,
            old(self).wf(),
        ensures
            final(self).wf(),
            inserted_local(old(self).scopes(), final(self).scopes(), name@, symbol, r),
    {
        let ghost sc = self.scopes();
        let found = self.get_symbol(name.as_str());
        match found {
            Some(existing) => {
                return Err(Self::redefinition(name, &existing));
            },
            None => {
                let n = self.table.len();
                proof {
                    assert(sc.drop_last().len() == n - 1);
                    assert(find_in_scope(sc.last(), name@) is None);
                    lemma_push_distinct(sc[n - 1], name@, symbol);
                }
                let mut local = self.table.pop().unwrap();
                let ghost l0 = local;
                local.push((name, symbol));
                assert(scope_view(local) =~= scope_view(l0).push((name@, symbol)));
                self.table.push(local);
                assert(self.scopes() =~= sc.update(n - 1, sc.last().push((name@, symbol))));
                Ok(())
            },
        }
    }

    /// Opens a new innermost scope.
    pub fn push_block_table(&mut self)
        requires
            old(self).wf(),
        ensures
            final(self).wf(),
            final(self).scopes() == old(self).scopes().push(Seq::empty()),
    {
        let empty: Vec<(String, Symbol<D, V, F>)> = Vec::new();
        assert(scope_view(empty) =~= Seq::empty());
        self.table.push(empty);
        proof {
            let ghost sc = self.scopes();
            assert(sc =~= old(self).scopes().push(Seq::empty()));
            assert(forall|i: int| 0 <= i < sc.len() - 1 ==> sc[i] == old(self).scopes()[i]);
        }
    }

    /// Closes the innermost scope, if there is one.
    pub fn pop_block_table(&mut self)
        requires
            old(self).wf(),
        ensures
            final(self).wf(),
            final(self).scopes() == if old(self).scopes().len() == 0 {
                old(self).scopes()
            } else {
                old(self).scopes().drop_last()
            },
    {
        self.table.pop();
        proof {
            let ghost sc = self.scopes();
            if old(self).scopes().len() > 0 {
                assert(sc =~= old(self).scopes().drop_last());
                assert(forall|i: int| 0 <= i < sc.len() ==> sc[i] == old(self).scopes()[i]);
            } else {
                assert(sc =~= old(self).scopes());
            }
        }
    }
}

/// How a type is built from a named one: wrapped, innermost first, in
/// arrays of given lengths and in pointers.
#[derive(Clone, Copy, Debug, PartialEq, Eq, Structural)]
pub enum TypeWrapper {
    Array(u32),
    Pointer,
}

/// A resolved type declarator: the named type and its wrappers.
pub struct ResolvedType<D> {
    pub base: LEBasicType<D>,
    pub wrappers: Vec<TypeWrapper>,
}

/// The type that a declarator stands for in `scopes`.
pub open spec fn resolve_type<D, V, F>(scopes: Seq<Scope<D, V, F>>, t: STypeDecl) -> Result<
    (LEBasicType<D>, Seq<TypeWrapper>),
    SCompileError,
>
    decreases t,
{
    match t {
        STypeDecl::TypeIdentifier(i) => match lookup(scopes, i.name) {
            None => Err(SCompileError::UnknownIdentifier(i.name)),
            Some(Symbol::Type(ty)) => Ok((ty.inner, Seq::empty())),
            Some(_) => Err(SCompileError::IdentifierIsNotType(i.name)),
        },
        STypeDecl::Array { element_type, len, .. } => match resolve_type(scopes, *element_type) {
            Ok((b, w)) => Ok((b, w.push(TypeWrapper::Array(len)))),
            Err(e) => Err(e),
        },
        STypeDecl::Reference(r) => match resolve_type(scopes, *r) {
            Ok((b, w)) => Ok((b, w.push(TypeWrapper::Pointer))),
            Err(e) => Err(e),
        },
    }
}

impl<D: Copy, V: Copy, F: Copy> SymbolTable<D, V, F> {
    /// The type that `type_declarator` stands for.
    pub fn get_type(&self, type_declarator: &TypeDeclarator) -> (r: Result<ResolvedType<D>, CompileError>)
        ensures
            match r {
                Ok(t) => resolve_type(self.scopes(), type_declarator@) == Ok::<
                    (LEBasicType<D>, Seq<TypeWrapper>),
                    SCompileError,
                >((t.base, t.wrappers@)),
                Err(e) => resolve_type(self.scopes(), type_declarator@) == Err::<
                    (LEBasicType<D>, Seq<TypeWrapper>),
                    SCompileError,
                >(e@),
            },
        decreases type_declarator,
    {
        match type_declarator {
            TypeDeclarator::TypeIdentifier(identifier) => {
                match self.get_symbol(identifier.name.as_str()) {
                    None => Err(CompileError::UnknownIdentifier { identifier: identifier.name.clone() }),
                    Some(Symbol::Type(t)) => Ok(ResolvedType { base: t.inner, wrappers: Vec::new() }),
                    Some(_) => Err(CompileError::IdentifierIsNotType { identifier: identifier.name.clone() }),
                }
            },
            TypeDeclarator::Array(array) => {
                match self.get_type(&array.element_type) {
                    Ok(t) => {
                        let mut wrappers = t.wrappers;
                        wrappers.push(TypeWrapper::Array(array.len));
                        Ok(ResolvedType { base: t.base, wrappers })
                    },
                    Err(e) => Err(e),
                }
            },
            TypeDeclarator::Reference(reference) => {
                match self.get_type(reference) {
                    Ok(t) => {
                        let mut wrappers = t.wrappers;
                        wrappers.push(TypeWrapper::Pointer);
                        Ok(ResolvedType { base: t.base, wrappers })
                    },
                    Err(e) => Err(e),
                }
            },
        }
    }

    /// The pointer of the variable `variable`. A name that is not a
    /// variable is reported as not a type.
    pub fn get_variable(&self, variable: &str) -> (r: Result<V, CompileError>)
        ensures
            match lookup(self.scopes(), variable@) {
                None => r matches Err(e) && e@ == SCompileError::UnknownIdentifier(variable@),
                Some(Symbol::Variable(v)) => r matches Ok(p) && p == v.pointer,
                Some(_) => r matches Err(e) && e@ == SCompileError::IdentifierIsNotType(variable@),
            },
    {
        match self.get_symbol(variable) {
            None => Err(CompileError::UnknownIdentifier { identifier: String::from_str(variable) }),
            Some(Symbol::Variable(v)) => Ok(v.pointer),
            Some(_) => Err(CompileError::IdentifierIsNotType { identifier: String::from_str(variable) }),
        }
    }

    /// The function `function`. A name that is not a function is reported
    /// as not a type.
    pub fn get_function(&self, function: &str) -> (r: Result<F, CompileError>)
        ensures
            match lookup(self.scopes(), function@) {
                None => r matches Err(e) && e@ == SCompileError::UnknownIdentifier(function@),
                Some(Symbol::Function(f)) => r matches Ok(p) && p == f.inner,
                Some(_) => r matches Err(e) && e@ == SCompileError::IdentifierIsNotType(function@),
            },
    {
        match self.get_symbol(function) {
            None => Err(CompileError::UnknownIdentifier { identifier: String::from_str(function) }),
            Some(Symbol::Function(f)) => Ok(f.inner),
            Some(_) => Err(CompileError::IdentifierIsNotType { identifier: String::from_str(function) }),
        }
    }

    /// Adds a global variable defined at `position`.
    pub fn insert_global_variable(&mut self, name: String, value: V, position: Position) -> (r: Result<(), CompileError>)
        requires
            old(self).scopes().len() >= 1,
            old(self).wf(),
        ensures
            final(self).wf(),
            inserted_global(
                old(self).scopes(),
                final(self).scopes(),
                name@,
                Symbol::Variable(Variable { pointer: value, meta: MetaData { defined_pos: position, is_built_in: false } }),
                r,
            ),
    {
        self.insert_global_symbol(name, Symbol::Variable(Variable { pointer: value, meta: MetaData { defined_pos: position, is_built_in: false } }))
    }

    /// Adds a global type defined at `defined_position`.
    pub fn insert_global_type(&mut self, name: String, value: LEBasicType<D>, defined_position: Position) -> (r: Result<(), CompileError>)
        requires
            old(self).scopes().len() >= 1,
            old(self).wf(),
        ensures
            final(self).wf(),
            inserted_global(
                old(self).scopes(),
                final(self).scopes(),
                name@,
                Symbol::Type(Type { inner: value, meta: MetaData { defined_pos: defined_position, is_built_in: false } }),
                r,
            ),
    {
        self.insert_global_symbol(name, Symbol::Type(Type { inner: value, meta: MetaData { defined_pos: defined_position, is_built_in: false } }))
    }

    /// Adds a global function defined at `defined_position`.
    pub fn insert_global_function(&mut self, name: String, value: F, defined_position: Position) -> (r: Result<(), CompileError>)
        requires
            old(self).scopes().len() >= 1,
            old(self).wf(),
        ensures
            final(self).wf(),
            inserted_global(
                old(self).scopes(),
                final(self).scopes(),
                name@,
                Symbol::Function(Function { inner: value, meta: MetaData { defined_pos: defined_position, is_built_in: false } }),
                r,
            ),
    {
        self.insert_global_symbol(name, Symbol::Function(Function { inner: value, meta: MetaData { defined_pos: defined_position, is_built_in: false } }))
    }

    /// Adds a local function defined at `defined_position`.
    pub fn insert_local_function(&mut self, name: String, value: F, defined_position: Position) -> (r: Result<(), CompileError>)
        requires
            old(self).scopes().len() >= 1,
            old(self).wf(),
        ensures
            final(self).wf(),
            inserted_local(
                old(self).scopes(),
                final(self).scopes(),
                name@,
                Symbol::Function(Function { inner: value, meta: MetaData { defined_pos: defined_position, is_built_in: false } }),
                r,
            ),
    {
        self.insert_local_symbol(name, Symbol::Function(Function { inner: value, meta: MetaData { defined_pos: defined_position, is_built_in: false } }))
    }

    /// Adds a local type defined at `defined_position`.
    pub fn insert_local_type(&mut self, name: String, value: LEBasicType<D>, defined_position: Position) -> (r: Result<(), CompileError>)
        requires
            old(self).scopes().len() >= 1,
            old(self).wf(),
        ensures
            final(self).wf(),
            inserted_local(
                old(self).scopes(),
                final(self).scopes(),
                name@,
                Symbol::Type(Type { inner: value, meta: MetaData { defined_pos: defined_position, is_built_in: false } }),
                r,
            ),
    {
        self.insert_local_symbol(name, Symbol::Type(Type { inner: value, meta: MetaData { defined_pos: defined_position, is_built_in: false } }))
    }

    /// Adds a local variable defined at `position`.
    pub fn insert_local_variable(&mut self, name: String, value: V, position: Position) -> (r: Result<(), CompileError>)
        requires
            old(self).scopes().len() >= 1,
            old(self).wf(),
        ensures
            final(self).wf(),
            inserted_local(
                old(self).scopes(),
                final(self).scopes(),
                name@,
                Symbol::Variable(Variable { pointer: value, meta: MetaData { defined_pos: position, is_built_in: false } }),
                r,
            ),
    {
        self.insert_local_symbol(name, Symbol::Variable(Variable { pointer: value, meta: MetaData { defined_pos: position, is_built_in: false } }))
    }
}

/// In a scope of distinct names, the entry of a name is the one found.
pub proof fn lemma_find_distinct<D, V, F>(s: Scope<D, V, F>, j: int)
    requires
        distinct_names(s),
        0 <= j < s.len(),
    ensures
        find_in_scope(s, s[j].0) == Some(s[j].1),
    decreases s.len(),
{
    if j < s.len() - 1 {
        assert(s[s.len() - 1].0 != s[j].0);
        let t = s.drop_last();
        assert(distinct_names(t)) by {
            assert forall|a: int, b: int| 0 <= a < b < t.len() implies #[trigger] t[a].0 != #[trigger] t[b].0 by {
                assert(t[a] == s[a] && t[b] == s[b]);
            }
        }
        assert(t[j] == s[j]);
        lemma_find_distinct(t, j);
    }
}

/// A name that the innermost scope is given is found at once, and every
/// other name is found as before.
pub proof fn law_lookup_after_local_insert<D, V, F>(
    scopes: Seq<Scope<D, V, F>>,
    name: Seq<char>,
    symbol: Symbol<D, V, F>,
    other: Seq<char>,
)
    requires
        scopes.len() >= 1,
    ensures
        lookup(scopes.update(scopes.len() - 1, scopes.last().push((name, symbol))), name) == Some(
            symbol,
        ),
        other != name ==> lookup(
            scopes.update(scopes.len() - 1, scopes.last().push((name, symbol))),
            other,
        ) == lookup(scopes, other),
{
    let after = scopes.update(scopes.len() - 1, scopes.last().push((name, symbol)));
    assert(after.drop_last() =~= scopes.drop_last());
    assert(after.last().drop_last() =~= scopes.last());
}

/// A name that the global scope is given, and that no inner scope has, is
/// found; every other name is found as before.
pub proof fn law_lookup_after_global_insert<D, V, F>(
    scopes: Seq<Scope<D, V, F>>,
    name: Seq<char>,
    symbol: Symbol<D, V, F>,
    other: Seq<char>,
)
    requires
        scopes.len() >= 1,
        forall|i: int| 1 <= i < scopes.len() ==> find_in_scope(#[trigger] scopes[i], name) is None,
    ensures
        lookup(scopes.update(0, scopes[0].push((name, symbol))), name) == Some(symbol),
        other != name ==> lookup(scopes.update(0, scopes[0].push((name, symbol))), other) == lookup(
            scopes,
            other,
        ),
    decreases scopes.len(),
{
    let after = scopes.update(0, scopes[0].push((name, symbol)));
    if scopes.len() == 1 {
        assert(after.drop_last().len() == 0);
        assert(scopes.drop_last().len() == 0);
        assert(after.last().drop_last() =~= scopes.last());
    } else {
        let inner = scopes.drop_last();
        assert(forall|i: int| 1 <= i < inner.len() ==> #[trigger] inner[i] == scopes[i]);
        law_lookup_after_global_insert(inner, name, symbol, other);
        assert(after.drop_last() =~= inner.update(0, inner[0].push((name, symbol))));
        assert(after.last() == scopes.last());
        assert(find_in_scope(scopes[scopes.len() - 1], name) is None);
    }
}

/// Opening a scope hides no name, and closing it again gives back the
/// scopes as they were.
pub proof fn law_pop_undoes_push<D, V, F>(scopes: Seq<Scope<D, V, F>>, name: Seq<char>)
    ensures
        lookup(scopes.push(Seq::empty()), name) == lookup(scopes, name),
        scopes.push(Seq::empty()).drop_last() == scopes,
{
    assert(scopes.push(Seq::empty()).drop_last() =~= scopes);
}

/// Each of the language's own types is found in a new table, as a type the
/// language defines; so none of them can be defined again.
pub proof fn law_builtin_types<D, V, F>(j: int)
    requires
        0 <= j < builtin_scope::<D, V, F>().len(),
    ensures
        lookup(seq![builtin_scope::<D, V, F>()], builtin_scope::<D, V, F>()[j].0) == Some(
            builtin_scope::<D, V, F>()[j].1,
        ),
        builtin_scope::<D, V, F>()[j].1.meta().is_built_in,
        builtin_scope::<D, V, F>()[j].1 is Type,
{
    let b = builtin_scope::<D, V, F>();
    reveal_strlit("bool");
    reveal_strlit("i8");
    reveal_strlit("i16");
    reveal_strlit("i32");
    reveal_strlit("i64");
    reveal_strlit("u8");
    reveal_strlit("u16");
    reveal_strlit("u32");
    reveal_strlit("u64");
    reveal_strlit("f32");
    reveal_strlit("f64");
    assert forall|x: int, y: int| 0 <= x < y < b.len() implies #[trigger] b[x].0 != #[trigger] b[y].0 by {
        if b[x].0 == b[y].0 {
            assert(b[x].0.len() == b[y].0.len());
            assert(b[x].0[0] == b[y].0[0]);
            assert(b[x].0[1] == b[y].0[1]);
        }
    }
    lemma_find_distinct(b, j);
    assert(seq![b].drop_last().len() == 0);
}

/// A new table knows the language's own types and no other name.
pub proof fn law_new_table_names<D, V, F>(name: Seq<char>)
    ensures
        lookup(seq![builtin_scope::<D, V, F>()], name) is Some <==> exists|j: int|
            0 <= j < builtin_scope::<D, V, F>().len() && (#[trigger] builtin_scope::<D, V, F>()[j]).0 == name,
{
    let b = builtin_scope::<D, V, F>();
    lemma_find_in_scope(b, name);
    let t = seq![b];
    assert(t.drop_last().len() == 0);
    assert(t.last() == b);
    assert(lookup(t.drop_last(), name) is None);
    assert(lookup(t, name) == find_in_scope(b, name));
    if exists|j: int| 0 <= j < b.len() && (#[trigger] b[j]).0 == name {
        let j = choose|j: int| 0 <= j < b.len() && (#[trigger] b[j]).0 == name;
        assert(b[j].0 == name);
    }
}

} // verus!
