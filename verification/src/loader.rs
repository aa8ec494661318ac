//! The table of loaded modules: their sources and their syntax trees.
//! Reading files and resolving paths is left to the caller.

use vstd::prelude::*;
use vstd::string::StringExecFns;
use rustc_hash::FxHashMap;
use crate::ast::Program;
use crate::range::ModId;
use crate::text::{append_decimal, decimal};

verus! {

/// The text of a module and where it came from.
#[derive(Debug, Clone, PartialEq)]
pub struct Source {
    pub raw: String,
    pub abs_path: String,
    pub pathname: String,
}

impl Source {
    pub fn new(raw: String, abs_path: String, pathname: String) -> (r: Source)
        ensures
            r == (Source { raw, abs_path, pathname }),
    {
        Source { raw, abs_path, pathname }
    }

    pub fn duplicate(&self) -> (r: Source)
        ensures
            r == *self,
    {
        Source {
            raw: self.raw.clone(),
            abs_path: self.abs_path.clone(),
            pathname: self.pathname.clone(),
        }
    }
}

/// What is known of one module: its source, once registered, and its
/// syntax tree, once parsed.
#[derive(Debug, PartialEq)]
pub struct Module {
    pub source: Option<Source>,
    pub ast: Option<Program>,
}

/// A table from module numbers to modules.
pub type ModuleTable = FxHashMap<u64, Module>;

/// What a module table holds: the module of each number that has one.
pub uninterp spec fn loaded(table: ModuleTable) -> Map<u64, Module>;

/// `FxHashMap::default`: a table that holds no module.
#[verifier::external_body]
fn table_new() -> (table: ModuleTable)
    ensures
        loaded(table) == (Map::<u64, Module>::empty()),
{
    FxHashMap::default()
}

/// `HashMap::insert`: afterwards `id` has the module `module`, whether or
/// not it had one before, and every other number has what it had.
#[verifier::external_body]
fn table_insert(table: &mut ModuleTable, id: u64, module: Module)
    ensures
        loaded(*final(table)) == loaded(*old(table)).insert(id, module),
{
    table.insert(id, module);
}

/// `HashMap::get`: the module of `id`, if it has one.
#[verifier::external_body]
fn table_get(table: &ModuleTable, id: u64) -> (r: Option<&Module>)
    ensures
        match r {
            Some(module) => loaded(*table).contains_key(id) && loaded(*table)[id] == *module,
            None => !loaded(*table).contains_key(id),
        },
{
    table.get(&id)
}

/// `HashMap::get_mut`: the module of `id`, if it has one, to change it in
/// place; afterwards `id` has the module as it was left, and every other
/// number has what it had.
#[verifier::external_body]
fn table_get_mut(table: &mut ModuleTable, id: u64) -> (r: Option<&mut Module>)
    ensures
        match r {
            Some(module) => loaded(*old(table)).contains_key(id) && *module == loaded(
                *old(table),
            )[id] && loaded(*final(table)) == loaded(*old(table)).insert(id, *final(module)),
            None => !loaded(*old(table)).contains_key(id) && loaded(*final(table)) == loaded(
                *old(table),
            ),
        },
{
    table.get_mut(&id)
}

/// `HashMap::remove`: the module that `id` had, if it had one; afterwards
/// `id` has none, and every other number has what it had.
#[verifier::external_body]
fn table_remove(table: &mut ModuleTable, id: u64) -> (r: Option<Module>)
    ensures
        loaded(*final(table)) == loaded(*old(table)).remove(id),
        r == if loaded(*old(table)).contains_key(id) {
            Some(loaded(*old(table))[id])
        } else {
            None
        },
{
    table.remove(&id)
}

/// The number after `count`. The last number follows itself.
pub open spec fn next_count(count: u64) -> u64 {
    if count < u64::MAX {
        (count + 1) as u64
    } else {
        count
    }
}

/// Mathematical model of a [`Loader`].
pub struct LoaderView {
    pub modules: Map<u64, Module>,
    /// How many sources were registered.
    pub count: u64,
}

impl LoaderView {
    /// The source of the module `mod_id`, if one is registered.
    pub open spec fn source(self, mod_id: ModId) -> Option<Source> {
        if self.modules.contains_key(mod_id.0) {
            self.modules[mod_id.0].source
        } else {
            None
        }
    }

    /// The syntax tree of the module `mod_id`, if one was added.
    pub open spec fn ast(self, mod_id: ModId) -> Option<Program> {
        if self.modules.contains_key(mod_id.0) {
            self.modules[mod_id.0].ast
        } else {
            None
        }
    }

    /// This table with `source` registered: the module takes the number
    /// of sources registered before for its number.
    pub open spec fn register(self, source: Source) -> LoaderView {
        LoaderView {
            modules: self.modules.insert(
                self.count,
                Module { source: Some(source), ast: self.ast(ModId(self.count)) },
            ),
            count: next_count(self.count),
        }
    }

    /// This table with `ast` as the syntax tree of the module `mod_id`.
    pub open spec fn with_ast(self, mod_id: ModId, ast: Program) -> LoaderView {
        LoaderView {
            modules: self.modules.insert(
                mod_id.0,
                Module { source: self.source(mod_id), ast: Some(ast) },
            ),
            ..self
        }
    }
}

/// The table of loaded modules.
pub struct Loader {
    modules: ModuleTable,
    count: u64,
}

impl View for Loader {
    type V = LoaderView;

    closed spec fn view(&self) -> LoaderView {
        LoaderView { modules: loaded(self.modules), count: self.count }
    }
}

/// What is said of a module that has no source.
pub open spec fn missing_source(mod_id: ModId) -> Seq<char> {
    "source for '"@ + decimal(mod_id.0 as nat) + "' not found"@
}

/// What is said of a module that has no syntax tree.
pub open spec fn missing_ast(mod_id: ModId) -> Seq<char> {
    "ast for '"@ + decimal(mod_id.0 as nat) + "' not found"@
}

impl Loader {
    pub fn new() -> (r: Loader)
        ensures
            r@ == (LoaderView { modules: Map::empty(), count: 0 }),
    {
        Loader { modules: table_new(), count: 0 }
    }

    /// Registers the source of a module and returns the module's number.
    pub fn register_source(&mut self, source: Source) -> (mod_id: ModId)
        ensures
            mod_id == ModId(old(self)@.count),
            final(self)@ == old(self)@.register(source),
            final(self)@.source(mod_id) == Some(source),
    {
        let mod_id = ModId::new(self.count);
        self.take_and_put(mod_id, Some(source), None, true);
        if self.count < u64::MAX {
            self.count = self.count + 1;
        }
        mod_id
    }

    /// Puts a source or a syntax tree in the place of what the module
    /// `mod_id` had of that kind, and keeps what it had of the other.
    fn take_and_put(
        &mut self,
        mod_id: ModId,
        source: Option<Source>,
        ast: Option<Program>,
        is_source: bool,
    )
        requires
            is_source ==> ast is None,
            !is_source ==> source is None,
        ensures
            final(self).count == old(self).count,
            loaded(final(self).modules) == loaded(old(self).modules).insert(
                mod_id.0,
                if is_source {
                    Module { source, ast: old(self)@.ast(mod_id) }
                } else {
                    Module { source: old(self)@.source(mod_id), ast }
                },
            ),
    {
        let before = table_remove(&mut self.modules, mod_id.0);
        let module = match before {
            Some(before) => if is_source {
                Module { source, ast: before.ast }
            } else {
                Module { source: before.source, ast }
            },
            None => Module { source, ast },
        };
        proof {
            assert(loaded(self.modules).insert(mod_id.0, module) =~= loaded(
                old(self).modules,
            ).insert(mod_id.0, module));
        }
        table_insert(&mut self.modules, mod_id.0, module);
    }

    /// The source of the module `mod_id`, if one is registered.
    pub fn get_source(&self, mod_id: ModId) -> (r: Option<&Source>)
        ensures
            match r {
                Some(source) => self@.source(mod_id) == Some(*source),
                None => self@.source(mod_id) is None,
            },
    {
        match table_get(&self.modules, mod_id.0) {
            Some(module) => module.source.as_ref(),
            None => None,
        }
    }

    /// The source of a module that has one.
    pub fn get_source_unchecked(&self, mod_id: ModId) -> (r: &Source)
        requires
            self@.source(mod_id) is Some,
        ensures
            self@.source(mod_id) == Some(*r),
    {
        match self.get_source(mod_id) {
            Some(source) => source,
            None => unreached(),
        }
    }

    /// The source of the module `mod_id`, or what to say where it has none.
    pub fn get_source_result(&self, mod_id: ModId) -> (r: Result<&Source, String>)
        ensures
            match r {
                Ok(source) => self@.source(mod_id) == Some(*source),
                Err(message) => self@.source(mod_id) is None && message@ == missing_source(mod_id),
            },
    {
        match self.get_source(mod_id) {
            Some(source) => Ok(source),
            None => {
                let mut message = String::from_str("source for '");
                append_decimal(&mut message, mod_id.0);
                message.append("' not found");
                assert(message@ =~= missing_source(mod_id));
                Err(message)
            },
        }
    }

    /// Makes `ast` the syntax tree of the module `mod_id`.
    pub fn add_mod(&mut self, mod_id: ModId, ast: Program)
        ensures
            final(self)@ == old(self)@.with_ast(mod_id, ast),
            final(self)@.ast(mod_id) == Some(ast),
    {
        self.take_and_put(mod_id, None, Some(ast), false);
    }

    /// The syntax tree of the module `mod_id`, if one was added.
    pub fn get_mod(&self, mod_id: ModId) -> (r: Option<&Program>)
        ensures
            match r {
                Some(ast) => self@.ast(mod_id) == Some(*ast),
                None => self@.ast(mod_id) is None,
            },
    {
        match table_get(&self.modules, mod_id.0) {
            Some(module) => module.ast.as_ref(),
            None => None,
        }
    }

    /// The syntax tree of the module `mod_id`, to change it in place, or
    /// what to say where it has none.
    pub fn get_mod_result(&mut self, mod_id: ModId) -> (r: Result<&mut Program, String>)
        ensures
            match r {
                Ok(ast) => old(self)@.ast(mod_id) == Some(*ast) && final(self)@ == old(
                    self,
                )@.with_ast(mod_id, *final(ast)),
                Err(message) => old(self)@.ast(mod_id) is None && message@ == missing_ast(mod_id)
                    && final(self)@ == old(self)@,
            },
    {
        let present = match table_get(&self.modules, mod_id.0) {
            Some(module) => module.ast.is_some(),
            None => false,
        };
        if !present {
            let mut message = String::from_str("ast for '");
            append_decimal(&mut message, mod_id.0);
            message.append("' not found");
            assert(message@ =~= missing_ast(mod_id));
            return Err(message);
        }
        match table_get_mut(&mut self.modules, mod_id.0) {
            Some(module) => match &mut module.ast {
                Some(ast) => Ok(ast),
                None => unreached(),
            },
            None => unreached(),
        }
    }
}

} // verus!
