//! A type accessor for inspecting on-chain struct layouts: a map from
//! fully qualified field names to field types, built module by module, and
//! a lookup that resolves an access path — a struct and a chain of field
//! names — to the type it reaches.
//!
//! Identifiers (module, struct and field names) and addresses appear here
//! interned as integers. Fetching a module's definition is the surrounding
//! harness's job: it drives the builder's fetch/add cycle and hands each
//! fetched definition back.

use vstd::prelude::*;

verus! {

/// A struct's fully qualified name.
#[derive(Debug, Copy, Clone, PartialEq, Eq, Structural)]
pub struct StructTag {
    pub address: u64,
    pub module: u64,
    pub name: u64,
}

/// A Move type, as far as field layouts are concerned.
#[derive(Debug, PartialEq, Eq)]
pub enum MoveType {
    Bool,
    U8,
    U64,
    U128,
    Address,
    Signer,
    Vector(Box<MoveType>),
    Reference { mutable: bool, to: Box<MoveType> },
    Struct(StructTag),
}

#[derive(Debug, PartialEq, Eq)]
pub struct MoveField {
    pub name: u64,
    pub typ: MoveType,
}

#[derive(Debug, PartialEq, Eq)]
pub struct MoveStruct {
    pub name: u64,
    pub fields: Vec<MoveField>,
}

/// A fetched module definition.
#[derive(Debug, PartialEq, Eq)]
pub struct MoveModule {
    pub address: u64,
    pub name: u64,
    pub structs: Vec<MoveStruct>,
}

/// A fully qualified field: address, module, struct, field.
pub type FieldId = (u64, u64, u64, u64);

/// The modules a type refers to: the module of the struct the type reaches
/// after unwrapping vectors and references, if any.
pub open spec fn type_refs(t: MoveType) -> Seq<(u64, u64)>
    decreases t,
{
    match t {
        MoveType::Vector(inner) => type_refs(*inner),
        MoveType::Reference { to, .. } => type_refs(*to),
        MoveType::Struct(tag) => seq![(tag.address, tag.module)],
        _ => Seq::empty(),
    }
}

/// The first field entry under a key wins, as in a map filled once per
/// module.
pub open spec fn lookup_spec(info: Seq<(FieldId, MoveType)>, key: FieldId) -> Option<MoveType>
    decreases info.len(),
{
    if info.len() == 0 {
        Option::None
    } else if info.first().0 == key {
        Option::Some(info.first().1)
    } else {
        lookup_spec(info.drop_first(), key)
    }
}

/// What an access path resolves to: follow the chain of field names,
/// descending into struct-typed fields; the last field's type is the
/// answer, and a missing field or a non-struct in the middle resolves to
/// nothing.
pub open spec fn resolve_spec(
    info: Seq<(FieldId, MoveType)>,
    address: u64,
    module: u64,
    struct_name: u64,
    fields: Seq<u64>,
) -> Option<MoveType>
    decreases fields.len(),
{
    if fields.len() == 0 {
        Option::None
    } else {
        match lookup_spec(info, (address, module, struct_name, fields.first())) {
            Option::None => Option::None,
            Option::Some(t) => {
                if fields.len() == 1 {
                    Option::Some(t)
                } else {
                    match t {
                        MoveType::Struct(tag) => resolve_spec(
                            info,
                            tag.address,
                            tag.module,
                            tag.name,
                            fields.drop_first(),
                        ),
                        _ => Option::None,
                    }
                }
            },
        }
    }
}

/// Builds the field-type map one fetched module at a time: hand out the
/// next module to fetch, feed the fetched definition back, repeat until no
/// module is left; the walk enqueues every module the fields' types refer
/// to, so it continues until the leaves (or a cycle) are reached.
pub struct TypeAccessorBuilder {
    module_id: (u64, u64),
    field_info: Vec<(FieldId, MoveType)>,
    modules_to_resolve: Vec<(u64, u64)>,
    modules_seen: Vec<(u64, u64)>,
}

impl TypeAccessorBuilder {
    pub closed spec fn info(&self) -> Seq<(FieldId, MoveType)> {
        self.field_info@
    }

    pub closed spec fn pending(&self) -> Seq<(u64, u64)> {
        self.modules_to_resolve@
    }

    pub closed spec fn seen(&self) -> Seq<(u64, u64)> {
        self.modules_seen@
    }

    /// Starts from the top-level module.
    pub fn new(module_id: (u64, u64)) -> (b: Self)
        ensures
            b.info() == Seq::<(FieldId, MoveType)>::empty(),
            b.pending() == seq![module_id],
            b.seen() == Seq::<(u64, u64)>::empty(),
    {
        let mut modules_to_resolve: Vec<(u64, u64)> = Vec::new();
        modules_to_resolve.push(module_id);
        proof {
            assert(modules_to_resolve@ =~= seq![module_id]);
        }
        TypeAccessorBuilder {
            module_id,
            field_info: Vec::new(),
            modules_to_resolve,
            modules_seen: Vec::new(),
        }
    }

    /// The next module whose definition is needed, skipping modules already
    /// processed; nothing once the worklist is exhausted. A returned module
    /// is marked seen, so it is handed out only once.
    pub fn next_module_to_fetch(&mut self) -> (r: Option<(u64, u64)>)
        ensures
            final(self).info() == old(self).info(),
            r matches Some(m) ==> {
                &&& old(self).pending().contains(m)
                &&& !old(self).seen().contains(m)
                &&& final(self).seen() == old(self).seen().push(m)
            },
            r is None ==> {
                &&& final(self).pending().len() == 0
                &&& final(self).seen() == old(self).seen()
                &&& forall|i: int|
                    0 <= i < old(self).pending().len() ==> old(self).seen().contains(
                        #[trigger] old(self).pending()[i],
                    )
            },
    {
        loop
            invariant
                self.field_info@ == old(self).field_info@,
                self.modules_seen@ == old(self).modules_seen@,
                self.modules_to_resolve@.len() <= old(self).modules_to_resolve@.len(),
                self.modules_to_resolve@ == old(self).modules_to_resolve@.take(
                    self.modules_to_resolve@.len() as int,
                ),
                forall|i: int|
                    self.modules_to_resolve@.len() <= i < old(self).modules_to_resolve@.len()
                        ==> old(self).seen().contains(
                        #[trigger] old(self).modules_to_resolve@[i],
                    ),
            decreases self.modules_to_resolve@.len(),
        {
            let ghost pending_pre = self.modules_to_resolve@;
            let next = self.modules_to_resolve.pop();
            match next {
                None => {
                    return None;
                },
                Some(m) => {
                    proof {
                        assert(m == pending_pre.last());
                        assert(pending_pre[pending_pre.len() - 1] == old(
                            self,
                        ).modules_to_resolve@[pending_pre.len() - 1]);
                        assert(self.modules_to_resolve@ == pending_pre.drop_last());
                        assert(self.modules_to_resolve@ =~= old(self).modules_to_resolve@.take(
                            self.modules_to_resolve@.len() as int,
                        ));
                    }
                    if !contains_module(&self.modules_seen, m) {
                        self.modules_seen.push(m);
                        return Some(m);
                    }
                },
            }
        }
    }

    /// Feeds one fetched module definition in: records every field's type
    /// under its fully qualified name and enqueues every module that the
    /// field types refer to, so the build continues until the leaves (or a
    /// cycle) are reached.
    pub fn add_module(&mut self, module: &MoveModule)
        ensures
            final(self).seen() == old(self).seen(),
            old(self).info().len() <= final(self).info().len(),
            forall|i: int|
                0 <= i < old(self).info().len() ==> final(self).info()[i] == old(self).info()[i],
            old(self).pending().len() <= final(self).pending().len(),
            forall|i: int|
                0 <= i < old(self).pending().len() ==> final(self).pending()[i] == old(
                    self,
                ).pending()[i],
            forall|si: int, fi: int, rm: int|
                0 <= si < module.structs@.len() && 0 <= fi < module.structs@[si].fields@.len()
                    && 0 <= rm < type_refs(module.structs@[si].fields@[fi].typ).len()
                    ==> final(self).pending().contains(
                    #[trigger] type_refs(module.structs@[si].fields@[fi].typ)[rm],
                ),
            forall|si: int, fi: int|
                0 <= si < module.structs@.len() && 0 <= fi
                    < module.structs@[si].fields@.len() ==> final(self).info().contains(
                    (
                        (
                            module.address,
                            module.name,
                            module.structs@[si].name,
                            (#[trigger] module.structs@[si].fields@[fi]).name,
                        ),
                        module.structs@[si].fields@[fi].typ,
                    ),
                ),
    {
        let num_structs = module.structs.len();
        let mut s: usize = 0;
        while s < num_structs
            invariant
                0 <= s <= num_structs,
                num_structs == module.structs@.len(),
                self.modules_seen@ == old(self).modules_seen@,
                old(self).field_info@.len() <= self.field_info@.len(),
                forall|i: int|
                    0 <= i < old(self).field_info@.len() ==> self.field_info@[i] == old(
                        self,
                    ).field_info@[i],
                old(self).modules_to_resolve@.len() <= self.modules_to_resolve@.len(),
                forall|i: int|
                    0 <= i < old(self).modules_to_resolve@.len() ==> self.modules_to_resolve@[i]
                        == old(self).modules_to_resolve@[i],
                forall|si: int, fi: int, rm: int|
                    0 <= si < s && 0 <= fi < module.structs@[si].fields@.len() && 0 <= rm
                        < type_refs(module.structs@[si].fields@[fi].typ).len()
                        ==> self.modules_to_resolve@.contains(
                        #[trigger] type_refs(module.structs@[si].fields@[fi].typ)[rm],
                    ),
                forall|si: int, fi: int|
                    0 <= si < s && 0 <= fi < module.structs@[si].fields@.len()
                        ==> self.field_info@.contains(
                        (
                            (
                                module.address,
                                module.name,
                                module.structs@[si].name,
                                (#[trigger] module.structs@[si].fields@[fi]).name,
                            ),
                            module.structs@[si].fields@[fi].typ,
                        ),
                    ),
            decreases num_structs - s,
        {
            let struc = &module.structs[s];
            let num_fields = struc.fields.len();
            let mut f: usize = 0;
            while f < num_fields
                invariant
                    0 <= f <= num_fields,
                    s < module.structs@.len(),
                    num_fields == module.structs@[s as int].fields@.len(),
                    self.modules_seen@ == old(self).modules_seen@,
                    old(self).field_info@.len() <= self.field_info@.len(),
                    forall|i: int|
                        0 <= i < old(self).field_info@.len() ==> self.field_info@[i] == old(
                            self,
                        ).field_info@[i],
                    old(self).modules_to_resolve@.len() <= self.modules_to_resolve@.len(),
                    forall|i: int|
                        0 <= i < old(self).modules_to_resolve@.len()
                            ==> self.modules_to_resolve@[i] == old(self).modules_to_resolve@[i],
                    forall|si: int, fi: int, rm: int|
                        0 <= si < s && 0 <= fi < module.structs@[si].fields@.len() && 0 <= rm
                            < type_refs(module.structs@[si].fields@[fi].typ).len()
                            ==> self.modules_to_resolve@.contains(
                            #[trigger] type_refs(module.structs@[si].fields@[fi].typ)[rm],
                        ),
                    forall|fi: int, rm: int|
                        0 <= fi < f && 0 <= rm < type_refs(
                            module.structs@[s as int].fields@[fi].typ,
                        ).len() ==> self.modules_to_resolve@.contains(
                            #[trigger] type_refs(module.structs@[s as int].fields@[fi].typ)[rm],
                        ),
                    forall|si: int, fi: int|
                        0 <= si < s && 0 <= fi < module.structs@[si].fields@.len()
                            ==> self.field_info@.contains(
                            (
                                (
                                    module.address,
                                    module.name,
                                    module.structs@[si].name,
                                    (#[trigger] module.structs@[si].fields@[fi]).name,
                                ),
                                module.structs@[si].fields@[fi].typ,
                            ),
                        ),
                    forall|fi: int|
                        0 <= fi < f ==> self.field_info@.contains(
                            (
                                (
                                    module.address,
                                    module.name,
                                    module.structs@[s as int].name,
                                    (#[trigger] module.structs@[s as int].fields@[fi]).name,
                                ),
                                module.structs@[s as int].fields@[fi].typ,
                            ),
                        ),
                decreases num_fields - f,
            {
                let field = &module.structs[s].fields[f];
                let typ = clone_type(&field.typ);
                let ghost info_pre = self.field_info@;
                let ghost pending_pre = self.modules_to_resolve@;
                self.field_info.push(
                    ((module.address, module.name, module.structs[s].name, field.name), typ),
                );
                self.enqueue_referenced(&module.structs[s].fields[f].typ);
                proof {
                    let refs = type_refs(module.structs@[s as int].fields@[f as int].typ);
                    assert(self.modules_to_resolve@ == pending_pre + refs);
                    assert forall|rm: int| 0 <= rm < refs.len()
                        implies self.modules_to_resolve@.contains(#[trigger] refs[rm]) by {
                        assert(self.modules_to_resolve@[pending_pre.len() + rm] == refs[rm]);
                    }
                    assert forall|si: int, fi: int, rm: int|
                        0 <= si < s && 0 <= fi < module.structs@[si].fields@.len() && 0 <= rm
                            < type_refs(module.structs@[si].fields@[fi].typ).len()
                            implies self.modules_to_resolve@.contains(
                            #[trigger] type_refs(module.structs@[si].fields@[fi].typ)[rm],
                        ) by {
                        lemma_contains_append(
                            pending_pre,
                            refs,
                            type_refs(module.structs@[si].fields@[fi].typ)[rm],
                        );
                    }
                    assert forall|fi: int, rm: int|
                        0 <= fi < f && 0 <= rm < type_refs(
                            module.structs@[s as int].fields@[fi].typ,
                        ).len() implies self.modules_to_resolve@.contains(
                            #[trigger] type_refs(module.structs@[s as int].fields@[fi].typ)[rm],
                        ) by {
                        lemma_contains_append(
                            pending_pre,
                            refs,
                            type_refs(module.structs@[s as int].fields@[fi].typ)[rm],
                        );
                    }
                    let entry = (
                        (
                            module.address,
                            module.name,
                            module.structs@[s as int].name,
                            module.structs@[s as int].fields@[f as int].name,
                        ),
                        module.structs@[s as int].fields@[f as int].typ,
                    );
                    assert(self.field_info@ == info_pre.push(entry));
                    assert(self.field_info@.last() == entry);
                    assert(self.field_info@.contains(entry));
                    assert forall|si: int, fi: int|
                        0 <= si < s && 0 <= fi < module.structs@[si].fields@.len()
                            implies self.field_info@.contains(
                            (
                                (
                                    module.address,
                                    module.name,
                                    module.structs@[si].name,
                                    (#[trigger] module.structs@[si].fields@[fi]).name,
                                ),
                                module.structs@[si].fields@[fi].typ,
                            ),
                        ) by {
                        lemma_contains_push(
                            info_pre,
                            entry,
                            (
                                (
                                    module.address,
                                    module.name,
                                    module.structs@[si].name,
                                    module.structs@[si].fields@[fi].name,
                                ),
                                module.structs@[si].fields@[fi].typ,
                            ),
                        );
                    }
                    assert forall|fi: int| 0 <= fi < f implies self.field_info@.contains(
                        (
                            (
                                module.address,
                                module.name,
                                module.structs@[s as int].name,
                                (#[trigger] module.structs@[s as int].fields@[fi]).name,
                            ),
                            module.structs@[s as int].fields@[fi].typ,
                        ),
                    ) by {
                        lemma_contains_push(
                            info_pre,
                            entry,
                            (
                                (
                                    module.address,
                                    module.name,
                                    module.structs@[s as int].name,
                                    module.structs@[s as int].fields@[fi].name,
                                ),
                                module.structs@[s as int].fields@[fi].typ,
                            ),
                        );
                    }
                }
                f = f + 1;
            }
            s = s + 1;
        }
    }

    /// Walks one type and enqueues the modules its struct references live
    /// in.
    fn enqueue_referenced(&mut self, typ: &MoveType)
        ensures
            final(self).info() == old(self).info(),
            final(self).seen() == old(self).seen(),
            final(self).pending() == old(self).pending() + type_refs(*typ),
        decreases typ,
    {
        match typ {
            MoveType::Vector(inner) => self.enqueue_referenced(inner),
            MoveType::Reference { to, .. } => self.enqueue_referenced(to),
            MoveType::Struct(tag) => {
                self.modules_to_resolve.push((tag.address, tag.module));
                proof {
                    assert(self.modules_to_resolve@ =~= old(self).modules_to_resolve@
                        + type_refs(*typ));
                }
            },
            _ => {
                proof {
                    assert(self.modules_to_resolve@ =~= old(self).modules_to_resolve@
                        + type_refs(*typ));
                }
            },
        }
    }

    /// Whether any module is still waiting to be fetched.
    pub fn has_pending(&self) -> (r: bool)
        ensures
            r == (self.pending().len() > 0),
    {
        self.modules_to_resolve.len() > 0
    }

    /// Finishes the build once every reachable module has been processed.
    pub fn build(self) -> (a: TypeAccessor)
        requires
            self.pending().len() == 0,
        ensures
            a.info() == self.info(),
    {
        TypeAccessor { module_id: self.module_id, field_info: self.field_info }
    }
}

fn contains_module(seen: &Vec<(u64, u64)>, m: (u64, u64)) -> (r: bool)
    ensures
        r == seen@.contains(m),
{
    let n = seen.len();
    let mut i: usize = 0;
    while i < n
        invariant
            0 <= i <= n,
            n == seen@.len(),
            forall|j: int| 0 <= j < i ==> seen@[j] != m,
        decreases n - i,
    {
        let e = seen[i];
        if e.0 == m.0 && e.1 == m.1 {
            proof {
                assert(seen@[i as int] == m);
            }
            return true;
        }
        i = i + 1;
    }
    false
}

proof fn lemma_contains_push<T>(s: Seq<T>, pushed: T, member: T)
    requires
        s.contains(member),
    ensures
        s.push(pushed).contains(member),
{
    let i = choose|i: int| 0 <= i < s.len() && s[i] == member;
    assert(s.push(pushed)[i] == member);
}

proof fn lemma_contains_append<T>(s: Seq<T>, appended: Seq<T>, member: T)
    requires
        s.contains(member),
    ensures
        (s + appended).contains(member),
{
    let i = choose|i: int| 0 <= i < s.len() && s[i] == member;
    assert((s + appended)[i] == member);
}

/// A structural copy of a type value.
fn clone_type(t: &MoveType) -> (r: MoveType)
    ensures
        r == *t,
    decreases t,
{
    match t {
        MoveType::Bool => MoveType::Bool,
        MoveType::U8 => MoveType::U8,
        MoveType::U64 => MoveType::U64,
        MoveType::U128 => MoveType::U128,
        MoveType::Address => MoveType::Address,
        MoveType::Signer => MoveType::Signer,
        MoveType::Vector(inner) => MoveType::Vector(Box::new(clone_type(inner))),
        MoveType::Reference { mutable, to } => MoveType::Reference {
            mutable: *mutable,
            to: Box::new(clone_type(to)),
        },
        MoveType::Struct(tag) => MoveType::Struct(*tag),
    }
}

/// The finished map of field types, keyed by fully qualified field name.
pub struct TypeAccessor {
    module_id: (u64, u64),
    field_info: Vec<(FieldId, MoveType)>,
}

impl TypeAccessor {
    pub closed spec fn info(&self) -> Seq<(FieldId, MoveType)> {
        self.field_info@
    }

    /// First recorded type under a fully qualified field name.
    fn lookup(&self, key: FieldId) -> (r: Option<&MoveType>)
        ensures
            match r {
                Some(t) => lookup_spec(self.info(), key) == Some(*t),
                None => lookup_spec(self.info(), key) is None,
            },
    {
        let n = self.field_info.len();
        let mut i: usize = 0;
        proof {
            assert(self.field_info@.skip(0) =~= self.field_info@);
        }
        while i < n
            invariant
                0 <= i <= n,
                n == self.field_info@.len(),
                lookup_spec(self.field_info@, key) == lookup_spec(
                    self.field_info@.skip(i as int),
                    key,
                ),
                forall|j: int| 0 <= j < i ==> (#[trigger] self.field_info@[j]).0 != key,
            decreases n - i,
        {
            let entry = &self.field_info[i];
            proof {
                assert(self.field_info@.skip(i as int).first() == self.field_info@[i as int]);
                assert(self.field_info@.skip(i as int).drop_first() =~= self.field_info@.skip(
                    i + 1,
                ));
            }
            if entry.0.0 == key.0 && entry.0.1 == key.1 && entry.0.2 == key.2 && entry.0.3
                == key.3 {
                proof {
                    assert(self.field_info@[i as int].0 == key);
                }
                return Some(&self.field_info[i].1);
            }
            i = i + 1;
        }
        proof {
            assert(self.field_info@.skip(n as int) =~= Seq::<(FieldId, MoveType)>::empty());
        }
        None
    }

    /// Resolves an access path — a struct and a chain of field names — to
    /// the type the chain reaches, descending into struct-typed fields;
    /// nothing when a field is unknown, the chain is empty, or the chain
    /// continues past a non-struct field.
    pub fn get_type(&self, access_path: (u64, u64, u64, Vec<u64>)) -> (r: Option<&MoveType>)
        ensures
            match r {
                Some(t) => resolve_spec(
                    self.info(),
                    access_path.0,
                    access_path.1,
                    access_path.2,
                    access_path.3@,
                ) == Some(*t),
                None => resolve_spec(
                    self.info(),
                    access_path.0,
                    access_path.1,
                    access_path.2,
                    access_path.3@,
                ) is None,
            },
    {
        let (address, module, struct_name, fields) = access_path;
        proof {
            assert(fields@.skip(0) =~= fields@);
        }
        self.resolve(address, module, struct_name, &fields, 0)
    }

    fn resolve(
        &self,
        address: u64,
        module: u64,
        struct_name: u64,
        fields: &Vec<u64>,
        idx: usize,
    ) -> (r: Option<&MoveType>)
        requires
            idx <= fields@.len(),
        ensures
            match r {
                Some(t) => resolve_spec(
                    self.info(),
                    address,
                    module,
                    struct_name,
                    fields@.skip(idx as int),
                ) == Some(*t),
                None => resolve_spec(
                    self.info(),
                    address,
                    module,
                    struct_name,
                    fields@.skip(idx as int),
                ) is None,
            },
        decreases fields@.len() - idx,
    {
        if idx == fields.len() {
            return None;
        }
        proof {
            assert(fields@.skip(idx as int).first() == fields@[idx as int]);
            assert(fields@.skip(idx as int).drop_first() =~= fields@.skip(idx + 1));
        }
        let head = self.lookup((address, module, struct_name, fields[idx]));
        match head {
            None => None,
            Some(t) => {
                if idx == fields.len() - 1 {
                    Some(t)
                } else {
                    match t {
                        MoveType::Struct(tag) => self.resolve(
                            tag.address,
                            tag.module,
                            tag.name,
                            fields,
                            idx + 1,
                        ),
                        _ => None,
                    }
                }
            },
        }
    }
}

} // verus!
