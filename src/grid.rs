use indexmap::IndexMap;
use std::hash::RandomState;
use vstd::prelude::*;

verus! {

#[verifier::external_type_specification]
#[verifier::external_body]
#[verifier::reject_recursive_types(K)]
#[verifier::reject_recursive_types(V)]
#[verifier::reject_recursive_types(S)]
pub struct ExIndexMap<K, V, S>(IndexMap<K, V, S>);

/// The group memberships a map holds, by group name.
pub uninterp spec fn group_flags(m: IndexMap<String, bool, RandomState>) -> Map<Seq<char>, bool>;

/// The group names of a map, in the map's order.
pub uninterp spec fn group_names(m: IndexMap<String, bool, RandomState>) -> Seq<Seq<char>>;

/// The property values a map holds, by property name.
pub uninterp spec fn property_values(m: IndexMap<String, String, RandomState>) -> Map<
    Seq<char>,
    Seq<char>,
>;

/// Relies on `IndexMap::get`: the value stored under `key`, if any.
#[verifier::external_body]
fn lookup_flag(m: &IndexMap<String, bool>, key: &String) -> (r: Option<bool>)
    ensures
        r == (if group_flags(*m).contains_key(key@) {
            Some(group_flags(*m)[key@])
        } else {
            None
        }),
{
    m.get(key).copied()
}

/// Relies on `IndexMap::get`: the value stored under `key`, if any.
#[verifier::external_body]
fn lookup_property(m: &IndexMap<String, String>, key: &String) -> (r: Option<String>)
    ensures
        r matches Some(v) ==> property_values(*m).contains_key(key@) && v@ == property_values(
            *m,
        )[key@],
        r is None ==> !property_values(*m).contains_key(key@),
{
    m.get(key).cloned()
}

/// Relies on `IndexMap::keys`: every key, in the map's order.
#[verifier::external_body]
fn flag_keys(m: &IndexMap<String, bool>) -> (r: Vec<String>)
    ensures
        r@.len() == group_names(*m).len(),
        forall|i: int| 0 <= i < r@.len() ==> #[trigger] r@[i]@ == group_names(*m)[i],
{
    m.keys().cloned().collect()
}

/// A person shown as one row of the grid.
pub struct User {
    pub id: String,
    pub name: String,
    pub properties: IndexMap<String, String>,
    pub groups: IndexMap<String, bool>,
}

/// One row of the grid: the user and the identity the row keeps when rows
/// are moved.
pub struct Row {
    pub id: String,
    pub user: User,
}

/// A column that shows one of the users' properties.
pub struct PropertyColumn {
    pub id: String,
    pub property: String,
}

impl PropertyColumn {
    pub fn new(id: String, property: String) -> (r: PropertyColumn)
        ensures
            r.id == id,
            r.property == property,
    {
        PropertyColumn { id, property }
    }

    /// The row's value of this column's property; empty when it has none.
    pub fn access(&self, row: &Row) -> (r: String)
        ensures
            r@ == (if property_values(row.user.properties).contains_key(self.id@) {
                property_values(row.user.properties)[self.id@]
            } else {
                Seq::<char>::empty()
            }),
    {
        match lookup_property(&row.user.properties, &self.id) {
            Some(value) => value,
            None => String::new(),
        }
    }
}

/// A column that shows whether each user belongs to one group.
#[derive(Clone, Debug, PartialEq)]
pub struct GroupColumn {
    pub id: String,
    pub group: String,
}

impl GroupColumn {
    pub fn new(id: String, group: String) -> (r: GroupColumn)
        ensures
            r.id == id,
            r.group == group,
    {
        GroupColumn { id, group }
    }

    /// Whether the row's user belongs to this column's group; a group the
    /// user has no entry for counts as not belonging.
    pub fn access(&self, row: &Row) -> (r: bool)
        ensures
            r == (group_flags(row.user.groups).contains_key(self.id@) && group_flags(
                row.user.groups,
            )[self.id@]),
    {
        match lookup_flag(&row.user.groups, &self.id) {
            Some(flag) => flag,
            None => false,
        }
    }
}

/// One row per user, in the users' order, each keeping its user's id.
pub fn get_rows(users: Vec<User>) -> (rows: Vec<Row>)
    ensures
        rows@.len() == users@.len(),
        forall|i: int| 0 <= i < rows@.len() ==> (#[trigger] rows@[i]).user == users@[i],
        forall|i: int| 0 <= i < rows@.len() ==> (#[trigger] rows@[i]).id@ == users@[i].id@,
{
    let ghost all = users@;
    let ghost n = users@.len() as int;
    let mut pending = users;
    let mut reversed: Vec<User> = Vec::new();
    while pending.len() > 0
        invariant
            n == all.len(),
            pending@.len() + reversed@.len() == n,
            pending@ == all.subrange(0, pending@.len() as int),
            forall|i: int| 0 <= i < reversed@.len() ==> #[trigger] reversed@[i] == all[n - 1 - i],
        decreases pending@.len(),
    {
        let user = pending.pop().unwrap();
        reversed.push(user);
    }
    let mut rows: Vec<Row> = Vec::new();
    while reversed.len() > 0
        invariant
            n == all.len(),
            rows@.len() + reversed@.len() == n,
            forall|i: int| 0 <= i < reversed@.len() ==> #[trigger] reversed@[i] == all[n - 1 - i],
            forall|i: int| 0 <= i < rows@.len() ==> (#[trigger] rows@[i]).user == all[i],
            forall|i: int| 0 <= i < rows@.len() ==> (#[trigger] rows@[i]).id@ == all[i].id@,
        decreases reversed@.len(),
    {
        let user = reversed.pop().unwrap();
        let id = user.id.clone();
        rows.push(Row { id, user });
    }
    rows
}

/// One group column per group of the first user, in that user's order, each
/// named after its group; none when there are no users.
pub fn get_group_columns(users: &[User]) -> (columns: Vec<GroupColumn>)
    ensures
        users@.len() == 0 ==> columns@.len() == 0,
        users@.len() > 0 ==> columns@.len() == group_names(users@[0].groups).len(),
        users@.len() > 0 ==> forall|i: int|
            0 <= i < columns@.len() ==> {
                &&& (#[trigger] columns@[i]).id@ == group_names(users@[0].groups)[i]
                &&& columns@[i].group@ == group_names(users@[0].groups)[i]
            },
{
    let mut columns: Vec<GroupColumn> = Vec::new();
    if users.len() == 0 {
        return columns;
    }
    let names = flag_keys(&users[0].groups);
    let mut i: usize = 0;
    while i < names.len()
        invariant
            i <= names@.len(),
            columns@.len() == i,
            forall|j: int| 0 <= j < names@.len() ==> #[trigger] names@[j]@ == group_names(users@[0].groups)[j],
            names@.len() == group_names(users@[0].groups).len(),
            forall|j: int|
                0 <= j < i ==> {
                    &&& (#[trigger] columns@[j]).id@ == group_names(users@[0].groups)[j]
                    &&& columns@[j].group@ == group_names(users@[0].groups)[j]
                },
        decreases names@.len() - i,
    {
        let name = names[i].clone();
        columns.push(GroupColumn::new(name.clone(), name));
        i = i + 1;
    }
    columns
}

} // verus!
