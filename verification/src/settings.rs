//! Wire contract of the settings portal interface
//! (`org.freedesktop.portal.Settings`).
//!
//! The interface gives read-only access to a small number of host settings,
//! grouped into namespaces. One method reads a single key within a
//! namespace; the other reads all keys across the namespaces selected by a
//! filter list. A filter entry matches a namespace name exactly, unless it
//! is empty (it then matches every name) or ends in `*` (it then matches
//! every name that begins with the part before the `*`). An empty filter
//! list matches every name, the same as passing no filter at all; this
//! module states that selection, implements it, and proves the equivalence.

use vstd::prelude::*;

verus! {

/// Whether one filter pattern matches a namespace name: an empty pattern
/// matches everything, a pattern ending in `*` matches every name that
/// begins with the part before the `*`, and any other pattern matches only
/// the name equal to it.
pub open spec fn pattern_matches(pattern: Seq<char>, name: Seq<char>) -> bool {
    if pattern.len() == 0 {
        true
    } else if pattern.last() == '*' {
        pattern.drop_last().is_prefix_of(name)
    } else {
        pattern == name
    }
}

/// Whether a filter list matches a namespace name: an empty list matches
/// everything, a non-empty list matches when some entry does.
pub open spec fn filter_matches(filters: Seq<Seq<char>>, name: Seq<char>) -> bool {
    filters.len() == 0 || exists|i: int| 0 <= i < filters.len() && pattern_matches(filters[i], name)
}

/// The views of a sequence of strings.
pub open spec fn views_of(v: Seq<String>) -> Seq<Seq<char>> {
    v.map_values(|s: String| s@)
}

/// Whether the first `n` characters of `a` and `b` agree.
fn chars_prefix_eq(a: &str, b: &str, n: usize) -> (r: bool)
    requires
        n <= a@.len(),
        n <= b@.len(),
    ensures
        r == (a@.subrange(0, n as int) == b@.subrange(0, n as int)),
{
    let mut i: usize = 0;
    while i < n
        invariant
            0 <= i <= n,
            n <= a@.len(),
            n <= b@.len(),
            forall|j: int| 0 <= j < i ==> a@[j] == b@[j],
        decreases n - i,
    {
        let ca = a.get_char(i);
        let cb = b.get_char(i);
        if ca != cb {
            proof {
                assert(a@.subrange(0, n as int)[i as int] == a@[i as int]);
                assert(b@.subrange(0, n as int)[i as int] == b@[i as int]);
            }
            return false;
        }
        i += 1;
    }
    proof {
        assert(a@.subrange(0, n as int) =~= b@.subrange(0, n as int));
    }
    true
}

/// Whether one filter pattern matches a namespace name.
pub fn namespace_matches(pattern: &str, name: &str) -> (r: bool)
    ensures
        r == pattern_matches(pattern@, name@),
{
    let plen = pattern.unicode_len();
    let nlen = name.unicode_len();
    if plen == 0 {
        return true;
    }
    let last = pattern.get_char(plen - 1);
    if last == '*' {
        proof {
            assert(pattern@.drop_last() =~= pattern@.subrange(0, (plen - 1) as int));
        }
        if nlen < plen - 1 {
            return false;
        }
        chars_prefix_eq(pattern, name, plen - 1)
    } else {
        if plen != nlen {
            return false;
        }
        let r = chars_prefix_eq(pattern, name, plen);
        proof {
            assert(pattern@.subrange(0, plen as int) =~= pattern@);
            assert(name@.subrange(0, nlen as int) =~= name@);
        }
        r
    }
}

/// Whether a filter list matches a namespace name.
pub fn namespaces_match(filters: &Vec<String>, name: &str) -> (r: bool)
    ensures
        r == filter_matches(views_of(filters@), name@),
{
    if filters.len() == 0 {
        return true;
    }
    let mut i: usize = 0;
    while i < filters.len()
        invariant
            0 <= i <= filters@.len(),
            forall|j: int| 0 <= j < i ==> !pattern_matches(views_of(filters@)[j], name@),
        decreases filters@.len() - i,
    {
        proof {
            assert(views_of(filters@)[i as int] == filters@[i as int]@);
        }
        if namespace_matches(filters[i].as_str(), name) {
            return true;
        }
        i += 1;
    }
    false
}

/// The namespace names that a filter list selects, in their given order:
/// with an empty filter list, all of them.
pub open spec fn selected_namespaces(filters: Seq<Seq<char>>, names: Seq<Seq<char>>) -> Seq<
    Seq<char>,
>
    decreases names.len(),
{
    if names.len() == 0 {
        Seq::empty()
    } else {
        let rest = selected_namespaces(filters, names.drop_last());
        if filter_matches(filters, names.last()) {
            rest.push(names.last())
        } else {
            rest
        }
    }
}

/// Select, in order, the namespace names that a filter list matches: the
/// local half of reading all settings, once the available namespace names
/// are known.
pub fn select_namespaces(filters: &Vec<String>, names: &Vec<String>) -> (r: Vec<String>)
    ensures
        views_of(r@) == selected_namespaces(views_of(filters@), views_of(names@)),
{
    let mut r: Vec<String> = Vec::new();
    let mut i: usize = 0;
    proof {
        assert(views_of(r@) =~= selected_namespaces(views_of(filters@), views_of(names@).take(0)));
    }
    while i < names.len()
        invariant
            0 <= i <= names@.len(),
            views_of(r@) == selected_namespaces(
                views_of(filters@),
                views_of(names@).take(i as int),
            ),
        decreases names@.len() - i,
    {
        let ghost prev = r@;
        proof {
            assert(views_of(names@)[i as int] == names@[i as int]@);
            assert(views_of(names@).take(i + 1).drop_last() =~= views_of(names@).take(i as int));
            assert(views_of(names@).take(i + 1).last() == views_of(names@)[i as int]);
        }
        if namespaces_match(filters, names[i].as_str()) {
            r.push(names[i].clone());
            proof {
                assert(views_of(r@) =~= views_of(prev).push(names@[i as int]@));
            }
        }
        i += 1;
    }
    proof {
        assert(views_of(names@).take(names@.len() as int) =~= views_of(names@));
    }
    r
}

/// An empty filter list matches every namespace name.
pub proof fn lemma_empty_filter_matches_all(name: Seq<char>)
    ensures
        filter_matches(Seq::empty(), name),
{
}

/// A filter list that contains the empty pattern matches every namespace
/// name.
pub proof fn lemma_empty_pattern_matches_all(filters: Seq<Seq<char>>, name: Seq<char>)
    requires
        exists|i: int| 0 <= i < filters.len() && filters[i].len() == 0,
    ensures
        filter_matches(filters, name),
{
    let i = choose|i: int| 0 <= i < filters.len() && filters[i].len() == 0;
    assert(pattern_matches(filters[i], name));
}

/// Reading all settings with an empty filter list selects every namespace,
/// in order — the same as passing no filter at all.
pub proof fn lemma_empty_filter_selects_all(names: Seq<Seq<char>>)
    ensures
        selected_namespaces(Seq::empty(), names) == names,
    decreases names.len(),
{
    if names.len() == 0 {
        assert(selected_namespaces(Seq::empty(), names) =~= names);
    } else {
        lemma_empty_filter_selects_all(names.drop_last());
        assert(selected_namespaces(Seq::empty(), names) =~= names);
    }
}

/// The methods of the settings portal interface.
#[derive(Clone, Copy, PartialEq, Eq, Structural, Debug)]
pub enum SettingsMethod {
    /// Read the value of one key within one namespace.
    Read,
    /// Read all keys of the namespaces selected by a filter list.
    ReadAll,
}

/// The member name under which a method is called on the bus.
pub open spec fn settings_method_name(m: SettingsMethod) -> Seq<char> {
    match m {
        SettingsMethod::Read => "Read"@,
        SettingsMethod::ReadAll => "ReadAll"@,
    }
}

/// The signature of a method's argument list: `s` a string, `as` an array
/// of strings.
pub open spec fn settings_method_args(m: SettingsMethod) -> Seq<char> {
    match m {
        SettingsMethod::Read => "ss"@,
        SettingsMethod::ReadAll => "as"@,
    }
}

/// The signature of a method's reply: `v` a variant, `a{sa{sv}}` a map from
/// namespace name to its keys and values.
pub open spec fn settings_method_reply(m: SettingsMethod) -> Seq<char> {
    match m {
        SettingsMethod::Read => "v"@,
        SettingsMethod::ReadAll => "a{sa{sv}}"@,
    }
}

impl SettingsMethod {
    /// The name of the interface that declares these methods.
    pub fn interface_name() -> (r: &'static str)
        ensures
            r@ == "org.freedesktop.portal.Settings"@,
    {
        "org.freedesktop.portal.Settings"
    }

    /// The bus name of the service that implements the interface.
    pub fn service_name() -> (r: &'static str)
        ensures
            r@ == "org.freedesktop.portal.Desktop"@,
    {
        "org.freedesktop.portal.Desktop"
    }

    /// The object path on which the interface is reached.
    pub fn object_path() -> (r: &'static str)
        ensures
            r@ == "/org/freedesktop/portal/desktop"@,
    {
        "/org/freedesktop/portal/desktop"
    }

    /// The member name under which this method is called on the bus.
    pub fn wire_name(self) -> (r: &'static str)
        ensures
            r@ == settings_method_name(self),
    {
        match self {
            SettingsMethod::Read => "Read",
            SettingsMethod::ReadAll => "ReadAll",
        }
    }

    /// The signature of this method's argument list.
    pub fn args_signature(self) -> (r: &'static str)
        ensures
            r@ == settings_method_args(self),
    {
        match self {
            SettingsMethod::Read => "ss",
            SettingsMethod::ReadAll => "as",
        }
    }

    /// The signature of this method's reply.
    pub fn reply_signature(self) -> (r: &'static str)
        ensures
            r@ == settings_method_reply(self),
    {
        match self {
            SettingsMethod::Read => "v",
            SettingsMethod::ReadAll => "a{sa{sv}}",
        }
    }
}

} // verus!
