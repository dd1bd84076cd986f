//! The registry of SQL functions and the registration of the system functions.

use vstd::prelude::*;

verus! {

broadcast use vstd::std_specs::vec::group_vec_axioms;

/// What a registry holds: the names of its scalar and of its asynchronous functions.
pub struct RegistryModel {
    pub scalar: Set<Seq<char>>,
    pub async_functions: Set<Seq<char>>,
}

/// The functions that SQL queries may call, by name. Registering a function under
/// a name that is already taken replaces the earlier one.
#[derive(Debug)]
pub struct FunctionRegistry {
    scalar: Vec<String>,
    async_functions: Vec<String>,
}

/// The names held in a list of names.
pub open spec fn name_set(v: Seq<String>) -> Set<Seq<char>> {
    Set::new(|n: Seq<char>| exists|i: int| 0 <= i < v.len() && (#[trigger] v[i])@ == n)
}

impl View for FunctionRegistry {
    type V = RegistryModel;

    closed spec fn view(&self) -> RegistryModel {
        RegistryModel {
            scalar: name_set(self.scalar@),
            async_functions: name_set(self.async_functions@),
        }
    }
}

/// Adds `name` to a list of distinct names, unless it is there already.
fn add_name(names: &mut Vec<String>, name: &str)
    ensures
        name_set(final(names)@) == name_set(old(names)@).insert(name@),
{
    let n = String::from_str(name);
    let mut i: usize = 0;
    while i < names.len()
        invariant
            i <= names.len(),
            n@ == name@,
            forall|j: int| 0 <= j < i ==> (#[trigger] names@[j])@ != name@,
        decreases names.len() - i,
    {
        if names[i] == n {
            assert(name_set(names@) =~= name_set(names@).insert(name@));
            return;
        }
        i = i + 1;
    }
    let ghost prev = names@;
    names.push(n);
    assert forall|x: Seq<char>| #[trigger] name_set(names@).contains(x) == name_set(prev).insert(
        name@,
    ).contains(x) by {
        if name_set(prev).contains(x) {
            let j = choose|j: int| 0 <= j < prev.len() && (#[trigger] prev[j])@ == x;
            assert(names@[j] == prev[j]);
        }
        if x == name@ {
            assert(names@[prev.len() as int]@ == x);
        }
        if name_set(names@).contains(x) {
            let j = choose|j: int| 0 <= j < names@.len() && (#[trigger] names@[j])@ == x;
            if j < prev.len() {
                assert(prev[j] == names@[j]);
            }
        }
    }
    assert(name_set(names@) =~= name_set(prev).insert(name@));
}

/// Whether a list of names holds `name`.
fn holds_name(names: &Vec<String>, name: &str) -> (r: bool)
    ensures
        r == name_set(names@).contains(name@),
{
    let n = String::from_str(name);
    let mut i: usize = 0;
    while i < names.len()
        invariant
            i <= names.len(),
            n@ == name@,
            forall|j: int| 0 <= j < i ==> (#[trigger] names@[j])@ != name@,
        decreases names.len() - i,
    {
        if names[i] == n {
            return true;
        }
        i = i + 1;
    }
    false
}

impl FunctionRegistry {
    /// An empty registry.
    pub fn new() -> (r: FunctionRegistry)
        ensures
            r@.scalar == Set::<Seq<char>>::empty(),
            r@.async_functions == Set::<Seq<char>>::empty(),
    {
        let r = FunctionRegistry { scalar: Vec::new(), async_functions: Vec::new() };
        assert(name_set(r.scalar@) =~= Set::<Seq<char>>::empty());
        assert(name_set(r.async_functions@) =~= Set::<Seq<char>>::empty());
        r
    }

    /// Registers a scalar function under `name`.
    pub fn register_scalar(&mut self, name: &str)
        ensures
            final(self)@.scalar == old(self)@.scalar.insert(name@),
            final(self)@.async_functions == old(self)@.async_functions,
    {
        add_name(&mut self.scalar, name);
    }

    /// Registers an asynchronous function under `name`.
    pub fn register_async(&mut self, name: &str)
        ensures
            final(self)@.scalar == old(self)@.scalar,
            final(self)@.async_functions == old(self)@.async_functions.insert(name@),
    {
        add_name(&mut self.async_functions, name);
    }

    /// Whether a scalar function is registered under `name`.
    pub fn has_scalar(&self, name: &str) -> (r: bool)
        ensures
            r == self@.scalar.contains(name@),
    {
        holds_name(&self.scalar, name)
    }

    /// Whether an asynchronous function is registered under `name`.
    pub fn has_async(&self, name: &str) -> (r: bool)
        ensures
            r == self@.async_functions.contains(name@),
    {
        holds_name(&self.async_functions, name)
    }
}

pub const BUILD_FUNCTION_NAME: &'static str = "build";

pub const VERSION_FUNCTION_NAME: &'static str = "version";

pub const CURRENT_SCHEMA_FUNCTION_NAME: &'static str = "current_schema";

pub const DATABASE_FUNCTION_NAME: &'static str = "database";

pub const SESSION_USER_FUNCTION_NAME: &'static str = "session_user";

pub const READ_PREFERENCE_FUNCTION_NAME: &'static str = "read_preference";

pub const PG_BACKEND_PID_FUNCTION_NAME: &'static str = "pg_backend_pid";

pub const CONNECTION_ID_FUNCTION_NAME: &'static str = "connection_id";

pub const TIMEZONE_FUNCTION_NAME: &'static str = "timezone";

pub const PROCEDURE_STATE_FUNCTION_NAME: &'static str = "procedure_state";

pub const PG_TABLE_IS_VISIBLE_FUNCTION_NAME: &'static str = "pg_catalog.pg_table_is_visible";

pub const PG_GET_USERBYID_FUNCTION_NAME: &'static str = "pg_catalog.pg_get_userbyid";

pub const PG_VERSION_FUNCTION_NAME: &'static str = "pg_catalog.version";

/// The names of the PostgreSQL catalog functions.
pub open spec fn pg_catalog_function_names() -> Set<Seq<char>> {
    set![PG_TABLE_IS_VISIBLE_FUNCTION_NAME@, PG_GET_USERBYID_FUNCTION_NAME@, PG_VERSION_FUNCTION_NAME@]
}

/// The names of the scalar system functions, the catalog functions included.
pub open spec fn system_scalar_function_names() -> Set<Seq<char>> {
    set![
        BUILD_FUNCTION_NAME@,
        VERSION_FUNCTION_NAME@,
        CURRENT_SCHEMA_FUNCTION_NAME@,
        DATABASE_FUNCTION_NAME@,
        SESSION_USER_FUNCTION_NAME@,
        READ_PREFERENCE_FUNCTION_NAME@,
        PG_BACKEND_PID_FUNCTION_NAME@,
        CONNECTION_ID_FUNCTION_NAME@,
        TIMEZONE_FUNCTION_NAME@,
    ].union(pg_catalog_function_names())
}

/// The names of the asynchronous system functions.
pub open spec fn system_async_function_names() -> Set<Seq<char>> {
    set![PROCEDURE_STATE_FUNCTION_NAME@]
}

/// The PostgreSQL catalog functions.
pub struct PGCatalogFunction;

impl PGCatalogFunction {
    /// Registers the PostgreSQL catalog functions.
    pub fn register(registry: &mut FunctionRegistry)
        ensures
            final(registry)@.scalar == old(registry)@.scalar.union(pg_catalog_function_names()),
            final(registry)@.async_functions == old(registry)@.async_functions,
    {
        registry.register_scalar(PG_TABLE_IS_VISIBLE_FUNCTION_NAME);
        registry.register_scalar(PG_GET_USERBYID_FUNCTION_NAME);
        registry.register_scalar(PG_VERSION_FUNCTION_NAME);
        assert(registry@.scalar =~= old(registry)@.scalar.union(pg_catalog_function_names()));
    }
}

/// The system functions: build and version information, session properties,
/// procedure state and the PostgreSQL catalog functions.
pub struct SystemFunction;

impl SystemFunction {
    /// Registers all system functions.
    pub fn register(registry: &mut FunctionRegistry)
        ensures
            final(registry)@ == system_registration(old(registry)@),
    {
        registry.register_scalar(BUILD_FUNCTION_NAME);
        registry.register_scalar(VERSION_FUNCTION_NAME);
        registry.register_scalar(CURRENT_SCHEMA_FUNCTION_NAME);
        registry.register_scalar(DATABASE_FUNCTION_NAME);
        registry.register_scalar(SESSION_USER_FUNCTION_NAME);
        registry.register_scalar(READ_PREFERENCE_FUNCTION_NAME);
        registry.register_scalar(PG_BACKEND_PID_FUNCTION_NAME);
        registry.register_scalar(CONNECTION_ID_FUNCTION_NAME);
        registry.register_scalar(TIMEZONE_FUNCTION_NAME);
        registry.register_async(PROCEDURE_STATE_FUNCTION_NAME);
        PGCatalogFunction::register(registry);
        assert(registry@.scalar =~= old(registry)@.scalar.union(system_scalar_function_names()));
        assert(registry@.async_functions =~= old(registry)@.async_functions.union(
            system_async_function_names(),
        ));
    }
}

} // verus!

verus! {

/// What registering the system functions makes of a registry.
pub open spec fn system_registration(m: RegistryModel) -> RegistryModel {
    RegistryModel {
        scalar: m.scalar.union(system_scalar_function_names()),
        async_functions: m.async_functions.union(system_async_function_names()),
    }
}

/// Registering the system functions a second time changes nothing.
pub proof fn law_system_registration_idempotent(m: RegistryModel)
    ensures
        system_registration(system_registration(m)) == system_registration(m),
{
    assert(system_registration(m).scalar.union(system_scalar_function_names())
        =~= system_registration(m).scalar);
    assert(system_registration(m).async_functions.union(system_async_function_names())
        =~= system_registration(m).async_functions);
}

/// Registering the system functions keeps every function registered before, and
/// afterwards every system function is registered.
pub proof fn law_system_registration_keeps_and_adds(m: RegistryModel, name: Seq<char>)
    ensures
        m.scalar.contains(name) ==> system_registration(m).scalar.contains(name),
        m.async_functions.contains(name) ==> system_registration(m).async_functions.contains(name),
        system_scalar_function_names().contains(name) ==> system_registration(m).scalar.contains(
            name,
        ),
        system_async_function_names().contains(name) ==> system_registration(
            m,
        ).async_functions.contains(name),
{
}

} // verus!
