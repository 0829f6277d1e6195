//! Run-time driver parameters: typed values registered by drivers and changed
//! while the system runs.
use vstd::prelude::*;
use crate::text::{str_eq, u64_text, i64_text, decimal, signed_decimal};

verus! {

/// A typed parameter value.
#[derive(Debug, Clone, PartialEq)]
pub enum ParameterValue {
    Bool(bool),
    Int(i64),
    Uint(u64),
    Str(String),
}

/// The value read as a boolean: non-zero integers are true.
pub open spec fn bool_of(v: ParameterValue) -> Option<bool> {
    match v {
        ParameterValue::Bool(b) => Some(b),
        ParameterValue::Int(i) => Some(i != 0),
        ParameterValue::Uint(u) => Some(u != 0),
        ParameterValue::Str(_) => None,
    }
}

/// The value read as a signed integer; unsigned values above `i64::MAX` do
/// not read.
pub open spec fn int_of(v: ParameterValue) -> Option<i64> {
    match v {
        ParameterValue::Int(i) => Some(i),
        ParameterValue::Uint(u) => if u <= i64::MAX { Some(u as i64) } else { None },
        ParameterValue::Bool(b) => Some(if b { 1i64 } else { 0i64 }),
        ParameterValue::Str(_) => None,
    }
}

/// The value read as an unsigned integer; negative values do not read.
pub open spec fn uint_of(v: ParameterValue) -> Option<u64> {
    match v {
        ParameterValue::Uint(u) => Some(u),
        ParameterValue::Int(i) => if i >= 0 { Some(i as u64) } else { None },
        ParameterValue::Bool(b) => Some(if b { 1u64 } else { 0u64 }),
        ParameterValue::Str(_) => None,
    }
}

/// Text of a value.
pub open spec fn value_text(v: ParameterValue) -> Seq<char> {
    match v {
        ParameterValue::Bool(b) => if b { "true"@ } else { "false"@ },
        ParameterValue::Int(i) => signed_decimal(i as int),
        ParameterValue::Uint(u) => decimal(u as nat),
        ParameterValue::Str(s) => s@,
    }
}

impl ParameterValue {
    /// The value as a boolean.
    pub fn as_bool(&self) -> (r: Option<bool>)
        ensures
            r == bool_of(*self),
    {
        match self {
            ParameterValue::Bool(b) => Some(*b),
            ParameterValue::Int(i) => Some(*i != 0),
            ParameterValue::Uint(u) => Some(*u != 0),
            _ => None,
        }
    }

    /// The value as a signed integer.
    pub fn as_int(&self) -> (r: Option<i64>)
        ensures
            r == int_of(*self),
    {
        match self {
            ParameterValue::Int(i) => Some(*i),
            ParameterValue::Uint(u) => {
                if *u <= i64::MAX as u64 {
                    Some(*u as i64)
                } else {
                    None
                }
            },
            ParameterValue::Bool(b) => Some(if *b { 1 } else { 0 }),
            _ => None,
        }
    }

    /// The value as an unsigned integer.
    pub fn as_uint(&self) -> (r: Option<u64>)
        ensures
            r == uint_of(*self),
    {
        match self {
            ParameterValue::Uint(u) => Some(*u),
            ParameterValue::Int(i) => {
                if *i >= 0 {
                    Some(*i as u64)
                } else {
                    None
                }
            },
            ParameterValue::Bool(b) => Some(if *b { 1 } else { 0 }),
            _ => None,
        }
    }

    /// The value as text.
    pub fn to_string(&self) -> (s: String)
        ensures
            s@ == value_text(*self),
    {
        match self {
            ParameterValue::Bool(b) => {
                if *b {
                    "true".to_owned()
                } else {
                    "false".to_owned()
                }
            },
            ParameterValue::Int(i) => i64_text(*i),
            ParameterValue::Uint(u) => u64_text(*u),
            ParameterValue::Str(s) => s.clone(),
        }
    }

    /// A copy of the value.
    pub fn duplicate(&self) -> (r: ParameterValue)
        ensures
            r == *self,
    {
        match self {
            ParameterValue::Bool(b) => ParameterValue::Bool(*b),
            ParameterValue::Int(i) => ParameterValue::Int(*i),
            ParameterValue::Uint(u) => ParameterValue::Uint(*u),
            ParameterValue::Str(s) => ParameterValue::Str(s.clone()),
        }
    }
}

/// A driver parameter.
#[derive(Debug, Clone)]
pub struct DriverParameter {
    pub name: &'static str,
    pub description: &'static str,
    pub value: ParameterValue,
    pub default: ParameterValue,
    pub writable: bool,
    pub module: &'static str,
}

impl DriverParameter {
    /// A copy of the parameter.
    pub fn duplicate(&self) -> (r: DriverParameter)
        ensures
            r == *self,
    {
        DriverParameter {
            name: self.name,
            description: self.description,
            value: self.value.duplicate(),
            default: self.default.duplicate(),
            writable: self.writable,
            module: self.module,
        }
    }
}

/// The registered parameters.
pub struct ParameterRegistry {
    pub params: Vec<DriverParameter>,
    pub initialized: bool,
}

/// Index of the first parameter named `name`, or the length when there is none.
pub open spec fn param_index(s: Seq<DriverParameter>, name: Seq<char>) -> int
    decreases s.len(),
{
    if s.len() == 0 {
        0
    } else if s[0].name@ == name {
        0
    } else {
        1 + param_index(s.drop_first(), name)
    }
}

/// No two parameters share a name.
pub open spec fn names_unique(s: Seq<DriverParameter>) -> bool {
    forall|i: int, j: int| 0 <= i < j < s.len() ==> #[trigger] s[i].name@ != #[trigger] s[j].name@
}

proof fn lemma_param_index(s: Seq<DriverParameter>, name: Seq<char>, i: int)
    requires
        0 <= i <= s.len(),
        forall|k: int| 0 <= k < i ==> #[trigger] s[k].name@ != name,
        i == s.len() || s[i].name@ == name,
    ensures
        param_index(s, name) == i,
    decreases s.len(),
{
    if s.len() > 0 && i > 0 {
        assert forall|k: int| 0 <= k < i - 1 implies #[trigger] s.drop_first()[k].name@ != name by {
            assert(s.drop_first()[k] == s[k + 1]);
        }
        lemma_param_index(s.drop_first(), name, i - 1);
    }
}

fn find_param(reg: &ParameterRegistry, name: &str) -> (i: usize)
    ensures
        i == param_index(reg.params@, name@),
        i <= reg.params@.len(),
{
    let mut i: usize = 0;
    while i < reg.params.len() && !str_eq(reg.params[i].name, name)
        invariant
            0 <= i <= reg.params@.len(),
            forall|k: int| 0 <= k < i ==> #[trigger] reg.params@[k].name@ != name@,
        decreases reg.params@.len() - i,
    {
        i = i + 1;
    }
    proof {
        lemma_param_index(reg.params@, name@, i as int);
    }
    i
}

/// An empty, initialized registry.
pub fn init() -> (r: ParameterRegistry)
    ensures
        r.params@.len() == 0,
        r.initialized,
{
    ParameterRegistry { params: Vec::new(), initialized: true }
}

/// Registers a parameter unless one with the same name exists.
pub fn register(reg: &mut ParameterRegistry, param: DriverParameter)
    ensures
        param_index(old(reg).params@, param.name@) < old(reg).params@.len() ==> final(reg).params@ == old(reg).params@,
        param_index(old(reg).params@, param.name@) == old(reg).params@.len() ==> final(reg).params@ == old(reg).params@.push(param),
        final(reg).initialized == old(reg).initialized,
{
    let i = find_param(reg, param.name);
    if i < reg.params.len() {
        return;
    }
    reg.params.push(param);
}

/// Sets the value of the parameter named `name`; `false` when there is no
/// such parameter or it is read-only.
pub fn set(reg: &mut ParameterRegistry, name: &str, new_value: ParameterValue) -> (ok: bool)
    ensures
        ({
            let s = old(reg).params@;
            let i = param_index(s, name@);
            &&& ok == (i < s.len() && s[i].writable)
            &&& ok ==> final(reg).params@ == s.update(i, DriverParameter { value: new_value, ..s[i] })
            &&& !ok ==> final(reg).params@ == s
        }),
        final(reg).initialized == old(reg).initialized,
{
    let i = find_param(reg, name);
    if i < reg.params.len() {
        if !reg.params[i].writable {
            return false;
        }
        reg.params[i].value = new_value;
        return true;
    }
    false
}

/// The value of the parameter named `name` as a boolean, or `default`.
pub fn get_bool(reg: &ParameterRegistry, name: &str, default: bool) -> (r: bool)
    ensures
        ({
            let s = reg.params@;
            let i = param_index(s, name@);
            r == (if i < s.len() && bool_of(s[i].value).is_some() { bool_of(s[i].value).unwrap() } else { default })
        }),
{
    let i = find_param(reg, name);
    if i < reg.params.len() {
        match reg.params[i].value.as_bool() {
            Some(b) => b,
            None => default,
        }
    } else {
        default
    }
}

/// The value of the parameter named `name` as a signed integer, or `default`.
pub fn get_int(reg: &ParameterRegistry, name: &str, default: i64) -> (r: i64)
    ensures
        ({
            let s = reg.params@;
            let i = param_index(s, name@);
            r == (if i < s.len() && int_of(s[i].value).is_some() { int_of(s[i].value).unwrap() } else { default })
        }),
{
    let i = find_param(reg, name);
    if i < reg.params.len() {
        match reg.params[i].value.as_int() {
            Some(v) => v,
            None => default,
        }
    } else {
        default
    }
}

/// The value of the parameter named `name` as an unsigned integer, or `default`.
pub fn get_uint(reg: &ParameterRegistry, name: &str, default: u64) -> (r: u64)
    ensures
        ({
            let s = reg.params@;
            let i = param_index(s, name@);
            r == (if i < s.len() && uint_of(s[i].value).is_some() { uint_of(s[i].value).unwrap() } else { default })
        }),
{
    let i = find_param(reg, name);
    if i < reg.params.len() {
        match reg.params[i].value.as_uint() {
            Some(v) => v,
            None => default,
        }
    } else {
        default
    }
}

/// Puts the parameter named `name` back to its default; `false` when there
/// is no such parameter.
pub fn reset(reg: &mut ParameterRegistry, name: &str) -> (ok: bool)
    ensures
        ({
            let s = old(reg).params@;
            let i = param_index(s, name@);
            &&& ok == (i < s.len())
            &&& ok ==> final(reg).params@ == s.update(i, DriverParameter { value: s[i].default, ..s[i] })
            &&& !ok ==> final(reg).params@ == s
        }),
        final(reg).initialized == old(reg).initialized,
{
    let i = find_param(reg, name);
    if i < reg.params.len() {
        let d = reg.params[i].default.duplicate();
        reg.params[i].value = d;
        return true;
    }
    false
}

/// Every parameter as (name, value text, description).
pub fn list_all(reg: &ParameterRegistry) -> (v: Vec<(String, String, String)>)
    ensures
        v@.len() == reg.params@.len(),
        forall|k: int| 0 <= k < v@.len() ==> {
            &&& (#[trigger] v@[k]).0@ == reg.params@[k].name@
            &&& v@[k].1@ == value_text(reg.params@[k].value)
            &&& v@[k].2@ == reg.params@[k].description@
        },
{
    let mut v: Vec<(String, String, String)> = Vec::new();
    let mut i: usize = 0;
    while i < reg.params.len()
        invariant
            0 <= i <= reg.params@.len(),
            v@.len() == i,
            forall|k: int| 0 <= k < i ==> {
                &&& (#[trigger] v@[k]).0@ == reg.params@[k].name@
                &&& v@[k].1@ == value_text(reg.params@[k].value)
                &&& v@[k].2@ == reg.params@[k].description@
            },
        decreases reg.params@.len() - i,
    {
        let p = &reg.params[i];
        let entry = (p.name.to_owned(), p.value.to_string(), p.description.to_owned());
        v.push(entry);
        i = i + 1;
    }
    v
}

/// The parameters registered by `module`, in registration order.
pub fn list_for_module(reg: &ParameterRegistry, module: &str) -> (v: Vec<DriverParameter>)
    ensures
        v@ == reg.params@.filter(|p: DriverParameter| p.module@ == module@),
{
    let ghost pred = |p: DriverParameter| p.module@ == module@;
    let mut v: Vec<DriverParameter> = Vec::new();
    let mut i: usize = 0;
    while i < reg.params.len()
        invariant
            0 <= i <= reg.params@.len(),
            pred == (|p: DriverParameter| p.module@ == module@),
            v@ == reg.params@.take(i as int).filter(pred),
        decreases reg.params@.len() - i,
    {
        proof {
            crate::seqs::lemma_take_succ(reg.params@, i as int);
            crate::seqs::lemma_filter_push(reg.params@.take(i as int), reg.params@[i as int], pred);
        }
        if str_eq(reg.params[i].module, module) {
            v.push(reg.params[i].duplicate());
        }
        i = i + 1;
    }
    assert(reg.params@.take(reg.params@.len() as int) =~= reg.params@);
    v
}

/// A writable boolean parameter set to its default.
pub fn bool_param(name: &'static str, description: &'static str, default: bool, module: &'static str) -> (p: DriverParameter)
    ensures
        p == (DriverParameter {
            name,
            description,
            value: ParameterValue::Bool(default),
            default: ParameterValue::Bool(default),
            writable: true,
            module,
        }),
{
    DriverParameter {
        name,
        description,
        value: ParameterValue::Bool(default),
        default: ParameterValue::Bool(default),
        writable: true,
        module,
    }
}

/// A writable integer parameter set to its default.
pub fn int_param(name: &'static str, description: &'static str, default: i64, module: &'static str) -> (p: DriverParameter)
    ensures
        p == (DriverParameter {
            name,
            description,
            value: ParameterValue::Int(default),
            default: ParameterValue::Int(default),
            writable: true,
            module,
        }),
{
    DriverParameter {
        name,
        description,
        value: ParameterValue::Int(default),
        default: ParameterValue::Int(default),
        writable: true,
        module,
    }
}

/// Registration never creates a second parameter with the same name.
pub proof fn lemma_register_keeps_names_unique(s: Seq<DriverParameter>, p: DriverParameter)
    requires
        names_unique(s),
        param_index(s, p.name@) == s.len(),
    ensures
        names_unique(s.push(p)),
{
    let t = s.push(p);
    assert forall|i: int, j: int| 0 <= i < j < t.len() implies #[trigger] t[i].name@ != #[trigger] t[j].name@ by {
        if j == s.len() {
            if t[i].name@ == p.name@ {
                assert(t[i] == s[i]);
                lemma_index_is_first(s, p.name@, i);
            }
        } else {
            assert(t[i] == s[i] && t[j] == s[j]);
        }
    }
}

proof fn lemma_param_index_bounds(s: Seq<DriverParameter>, name: Seq<char>)
    ensures
        0 <= param_index(s, name) <= s.len(),
    decreases s.len(),
{
    if s.len() > 0 {
        lemma_param_index_bounds(s.drop_first(), name);
    }
}

proof fn lemma_index_is_first(s: Seq<DriverParameter>, name: Seq<char>, k: int)
    requires
        0 <= k < s.len(),
        s[k].name@ == name,
    ensures
        param_index(s, name) <= k,
    decreases s.len(),
{
    if k > 0 && s[0].name@ != name {
        assert(s.drop_first()[k - 1] == s[k]);
        lemma_index_is_first(s.drop_first(), name, k - 1);
    }
}

/// Setting a writable parameter and reading it back gives the value set.
pub proof fn lemma_set_then_get(s: Seq<DriverParameter>, name: Seq<char>, v: ParameterValue)
    requires
        0 <= param_index(s, name) < s.len(),
        s[param_index(s, name)].writable,
    ensures
        ({
            let i = param_index(s, name);
            let t = s.update(i, DriverParameter { value: v, ..s[i] });
            param_index(t, name) == i && t[i].value == v
        }),
{
    lemma_param_index_bounds(s, name);
    let i = param_index(s, name);
    let t = s.update(i, DriverParameter { value: v, ..s[i] });
    lemma_index_same_names(s, t, name);
}

/// Resetting a parameter and reading it back gives its default.
pub proof fn lemma_reset_then_get(s: Seq<DriverParameter>, name: Seq<char>)
    requires
        0 <= param_index(s, name) < s.len(),
    ensures
        ({
            let i = param_index(s, name);
            let t = s.update(i, DriverParameter { value: s[i].default, ..s[i] });
            param_index(t, name) == i && t[i].value == s[i].default
        }),
{
    lemma_param_index_bounds(s, name);
    let i = param_index(s, name);
    let t = s.update(i, DriverParameter { value: s[i].default, ..s[i] });
    lemma_index_same_names(s, t, name);
}

proof fn lemma_index_same_names(s: Seq<DriverParameter>, t: Seq<DriverParameter>, name: Seq<char>)
    requires
        s.len() == t.len(),
        forall|k: int| 0 <= k < s.len() ==> #[trigger] s[k].name == t[k].name,
    ensures
        param_index(s, name) == param_index(t, name),
    decreases s.len(),
{
    if s.len() > 0 {
        assert(s[0].name == t[0].name);
        assert forall|k: int| 0 <= k < s.drop_first().len() implies #[trigger] s.drop_first()[k].name == t.drop_first()[k].name by {
            assert(s.drop_first()[k] == s[k + 1]);
            assert(t.drop_first()[k] == t[k + 1]);
        }
        lemma_index_same_names(s.drop_first(), t.drop_first(), name);
    }
}

} // verus!
