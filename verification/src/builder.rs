//! The configuration of the code generator: where it writes the file
//! descriptor set, and which validation attributes it adds to the generated
//! types and fields.
use vstd::prelude::*;
use crate::text::push_char;

verus! {

/// The name of the file descriptor set file.
pub open spec fn descriptor_file_name() -> Seq<char> {
    "file_descriptor_set.bin"@
}

/// `name` joined to the directory `dir`, as a path: a separator between
/// them unless `dir` is empty or already ends with one.
pub open spec fn join_path(dir: Seq<char>, name: Seq<char>) -> Seq<char> {
    if dir.len() == 0 {
        name
    } else if dir.last() == '/' {
        dir + name
    } else {
        dir + "/"@ + name
    }
}

/// The configuration of the code generation.
#[derive(Debug, Clone)]
pub struct Builder {
    file_descriptor_set_path: String,
}

/// `s` followed by the characters of `t`.
fn append(s: &mut String, t: &str)
    ensures
        final(s)@ == old(s)@ + t@,
{
    let chars = crate::text::chars_of(t);
    let ghost start = s@;
    let mut i: usize = 0;
    while i < chars.len()
        invariant
            i <= chars@.len(),
            chars@ == t@,
            s@ == start + chars@.subrange(0, i as int),
        decreases chars@.len() - i,
    {
        push_char(s, chars[i]);
        i = i + 1;
        assert(s@ =~= start + chars@.subrange(0, i as int));
    }
    assert(chars@.subrange(0, chars@.len() as int) =~= chars@);
}

impl Builder {
    /// The path of the file descriptor set.
    pub closed spec fn path_view(&self) -> Seq<char> {
        self.file_descriptor_set_path@
    }

    /// A builder that writes the file descriptor set to
    /// `file_descriptor_set.bin` in the output directory `out_dir`, or in
    /// the current directory when there is none.
    pub fn new(out_dir: Option<String>) -> (b: Builder)
        ensures
            b.path_view() == join_path(
                match out_dir {
                    Some(d) => d@,
                    None => "."@,
                },
                descriptor_file_name(),
            ),
    {
        proof {
            reveal_strlit(".");
            reveal_strlit("/");
        }
        let mut path = match out_dir {
            Some(d) => d,
            None => ".".to_owned(),
        };
        let n = path.as_str().unicode_len();
        if n > 0 && path.as_str().get_char(n - 1) != '/' {
            append(&mut path, "/");
        }
        append(&mut path, "file_descriptor_set.bin");
        Builder { file_descriptor_set_path: path }
    }

    /// Sets the path of the file descriptor set.
    pub fn file_descriptor_set_path(&mut self, path: String) -> (r: &mut Self)
        ensures
            r.path_view() == path@,
            *final(self) == *final(r),
    {
        self.file_descriptor_set_path = path;
        self
    }

    /// The path of the file descriptor set.
    pub fn path(&self) -> (p: &String)
        ensures
            p@ == self.path_view(),
    {
        &self.file_descriptor_set_path
    }
}

// ---------------------------------------------------------------- attributes

/// A field of a message type as the code generator configures it.
#[derive(Debug, Clone)]
pub struct FieldDesc {
    /// The full name of the field.
    pub full_name: String,
    /// The short name of the field.
    pub name: String,
    /// The field carries validation rules.
    pub has_rules: bool,
    /// The rules written as the arguments of a `validate` attribute, when
    /// they differ from the default rules.
    pub annotation: Option<String>,
    /// The oneof the field belongs to, by position in its message.
    pub oneof: Option<usize>,
}

/// A oneof of a message type as the code generator configures it.
#[derive(Debug, Clone)]
pub struct OneofDesc {
    /// The full name of the oneof.
    pub full_name: String,
    /// One of its fields must be set.
    pub required: bool,
    /// Its fields, by position in the message.
    pub fields: Vec<usize>,
}

/// A message type as the code generator configures it.
#[derive(Debug, Clone)]
pub struct MessageDesc {
    /// The full name of the message type.
    pub full_name: String,
    /// Validation of the type is ignored.
    pub ignored: bool,
    /// Validation of the type is disabled.
    pub disabled: bool,
    /// Its fields, in declaration order.
    pub fields: Vec<FieldDesc>,
    /// Its oneofs.
    pub oneofs: Vec<OneofDesc>,
}

/// An attribute that the code generator adds to a generated type or field.
#[derive(Debug, Clone, PartialEq, Eq)]
pub enum Attribute {
    /// `#[derive(::prost_validate::Validator)]` on the type at `path`.
    DeriveValidator { path: String },
    /// `#[validate(name = "...")]` on the field at `path`.
    Name { path: String, name: String },
    /// `#[validate(required)]` on the oneof field at `path`.
    Required { path: String },
    /// `#[validate(...)]` with the rules `rules` on the field at `path`.
    Rules { path: String, rules: String },
}

/// The kind and text of an attribute, as contracts speak of it.
pub ghost enum PlannedAttribute {
    /// A derive of the validator on a type.
    DeriveValidator(Seq<char>),
    /// A field's name: the path of the field, the name.
    Name(Seq<char>, Seq<char>),
    /// A required oneof.
    Required(Seq<char>),
    /// A field's rules: the path of the field, the rules.
    Rules(Seq<char>, Seq<char>),
}

impl Attribute {
    /// The attribute as contracts speak of it.
    pub open spec fn planned(self) -> PlannedAttribute {
        match self {
            Attribute::DeriveValidator { path } => PlannedAttribute::DeriveValidator(path@),
            Attribute::Name { path, name } => PlannedAttribute::Name(path@, name@),
            Attribute::Required { path } => PlannedAttribute::Required(path@),
            Attribute::Rules { path, rules } => PlannedAttribute::Rules(path@, rules@),
        }
    }
}

/// The descriptions of the messages are consistent: each oneof lists the
/// fields that name it, each once and in declaration order.
pub open spec fn message_desc_wf(m: MessageDesc) -> bool {
    forall|o: int|
        0 <= o < m.oneofs@.len() ==> {
            let members = (#[trigger] m.oneofs@[o]).fields@;
            &&& forall|k: int| 0 <= k < members.len() ==> members[k] < m.fields@.len()
            &&& forall|k: int, l: int| 0 <= k < l < members.len() ==> members[k] < members[l]
            &&& forall|i: int|
                0 <= i < m.fields@.len() ==> (m.fields@[i].oneof == Some(o as usize) <==> exists|k: int|
                    0 <= k < members.len() && members[k] == i)
        }
}

/// The attributes of a field that carries rules: its rules, when they are
/// not the default ones.
pub open spec fn rules_attributes(path: Seq<char>, f: FieldDesc) -> Seq<PlannedAttribute> {
    match f.annotation {
        Some(a) => seq![PlannedAttribute::Rules(path, a@)],
        None => Seq::empty(),
    }
}

/// The attributes of the member at position `k` of oneof `o`: its name
/// under the oneof's path, and its rules.
pub open spec fn member_attributes(m: MessageDesc, o: int, k: int) -> Seq<PlannedAttribute> {
    let d = m.oneofs@[o];
    let f = m.fields@[d.fields@[k] as int];
    let path = d.full_name@ + "."@ + f.name@;
    seq![PlannedAttribute::Name(path, f.full_name@)] + if f.has_rules {
        rules_attributes(path, f)
    } else {
        Seq::empty()
    }
}

/// The attributes of the members of oneof `o` from position `k` on.
pub open spec fn members_attributes(m: MessageDesc, o: int, k: int) -> Seq<PlannedAttribute>
    decreases m.oneofs@[o].fields@.len() - k,
{
    if k < 0 || k >= m.oneofs@[o].fields@.len() {
        Seq::empty()
    } else {
        member_attributes(m, o, k) + members_attributes(m, o, k + 1)
    }
}

/// The attributes of oneof `o`: its name, the derive, `required` when it
/// is, then those of its members.
pub open spec fn oneof_attributes(m: MessageDesc, o: int) -> Seq<PlannedAttribute> {
    let d = m.oneofs@[o];
    seq![
        PlannedAttribute::Name(d.full_name@, d.full_name@),
        PlannedAttribute::DeriveValidator(d.full_name@),
    ] + (if d.required {
        seq![PlannedAttribute::Required(d.full_name@)]
    } else {
        Seq::empty()
    }) + members_attributes(m, o, 0)
}

/// An earlier field of `m` with rules belongs to oneof `o`: the oneof was
/// configured there.
pub open spec fn oneof_done_before(m: MessageDesc, i: int, o: usize) -> bool {
    exists|j: int| 0 <= j < i && (#[trigger] m.fields@[j]).has_rules && m.fields@[j].oneof == Some(o)
}

/// The attributes for field `i` of `m`: its name; then, when it carries
/// rules, the whole oneof at its first member with rules, or its own rules.
pub open spec fn field_attributes(m: MessageDesc, i: int) -> Seq<PlannedAttribute> {
    let f = m.fields@[i];
    seq![PlannedAttribute::Name(f.full_name@, f.full_name@)] + if !f.has_rules {
        Seq::empty()
    } else {
        match f.oneof {
            Some(o) => if oneof_done_before(m, i, o) || o >= m.oneofs@.len() {
                Seq::empty()
            } else {
                oneof_attributes(m, o as int)
            },
            None => rules_attributes(f.full_name@, f),
        }
    }
}

/// The attributes for the fields of `m` from position `i` on.
pub open spec fn fields_attributes(m: MessageDesc, i: int) -> Seq<PlannedAttribute>
    decreases m.fields@.len() - i,
{
    if i < 0 || i >= m.fields@.len() {
        Seq::empty()
    } else {
        field_attributes(m, i) + fields_attributes(m, i + 1)
    }
}

/// The attributes for message `m`: the derive, then, unless validation of
/// the type is ignored or disabled, those of its fields.
pub open spec fn message_attributes(m: MessageDesc) -> Seq<PlannedAttribute> {
    seq![PlannedAttribute::DeriveValidator(m.full_name@)] + if m.ignored || m.disabled {
        Seq::empty()
    } else {
        fields_attributes(m, 0)
    }
}

/// The attributes for the messages of `ms` from position `i` on.
pub open spec fn all_attributes(ms: Seq<MessageDesc>, i: int) -> Seq<PlannedAttribute>
    decreases ms.len() - i,
{
    if i < 0 || i >= ms.len() {
        Seq::empty()
    } else {
        message_attributes(ms[i]) + all_attributes(ms, i + 1)
    }
}

/// The attributes `a` say `p`.
pub open spec fn plans(a: Seq<Attribute>, p: Seq<PlannedAttribute>) -> bool {
    a.len() == p.len() && forall|i: int| 0 <= i < a.len() ==> (#[trigger] a[i]).planned() == p[i]
}

/// Appends `x` to the attributes `out`.
fn emit(out: &mut Vec<Attribute>, x: Attribute, Ghost(p): Ghost<Seq<PlannedAttribute>>)
    requires
        plans(old(out)@, p),
    ensures
        plans(final(out)@, p.push(x.planned())),
{
    out.push(x);
}

/// Adds the attributes of the member at position `k` of oneof `o`.
fn plan_member(m: &MessageDesc, o: usize, k: usize, out: &mut Vec<Attribute>, Ghost(p): Ghost<Seq<PlannedAttribute>>)
    requires
        o < m.oneofs@.len(),
        k < m.oneofs@[o as int].fields@.len(),
        message_desc_wf(*m),
        plans(old(out)@, p),
    ensures
        plans(final(out)@, p + member_attributes(*m, o as int, k as int)),
{
    let d = &m.oneofs[o];
    assert(d.fields@[k as int] < m.fields@.len());
    let f = &m.fields[d.fields[k]];
    let mut path = d.full_name.clone();
    append(&mut path, ".");
    append(&mut path, f.name.as_str());
    let ghost path_view = path@;
    emit(out, Attribute::Name { path: path.clone(), name: f.full_name.clone() }, Ghost(p));
    let ghost p1 = p.push(PlannedAttribute::Name(path_view, f.full_name@));
    if f.has_rules {
        if let Some(a) = &f.annotation {
            emit(out, Attribute::Rules { path, rules: a.clone() }, Ghost(p1));
            assert(p1.push(PlannedAttribute::Rules(path_view, a@)) =~= p + member_attributes(*m, o as int, k as int));
            return;
        }
    }
    assert(p1 =~= p + member_attributes(*m, o as int, k as int));
}

/// Adds the attributes of oneof `o`.
fn plan_oneof(m: &MessageDesc, o: usize, out: &mut Vec<Attribute>, Ghost(p): Ghost<Seq<PlannedAttribute>>)
    requires
        o < m.oneofs@.len(),
        message_desc_wf(*m),
        plans(old(out)@, p),
    ensures
        plans(final(out)@, p + oneof_attributes(*m, o as int)),
{
    let d = &m.oneofs[o];
    emit(out, Attribute::Name { path: d.full_name.clone(), name: d.full_name.clone() }, Ghost(p));
    let ghost p1 = p.push(PlannedAttribute::Name(d.full_name@, d.full_name@));
    emit(out, Attribute::DeriveValidator { path: d.full_name.clone() }, Ghost(p1));
    let ghost mut q = p1.push(PlannedAttribute::DeriveValidator(d.full_name@));
    if d.required {
        emit(out, Attribute::Required { path: d.full_name.clone() }, Ghost(q));
        proof {
            q = q.push(PlannedAttribute::Required(d.full_name@));
        }
    }
    assert(q =~= p + seq![
        PlannedAttribute::Name(d.full_name@, d.full_name@),
        PlannedAttribute::DeriveValidator(d.full_name@),
    ] + (if d.required {
        seq![PlannedAttribute::Required(d.full_name@)]
    } else {
        Seq::<PlannedAttribute>::empty()
    }));
    let n = d.fields.len();
    let mut k: usize = 0;
    while k < n
        invariant
            o < m.oneofs@.len(),
            n == m.oneofs@[o as int].fields@.len(),
            k <= n,
            message_desc_wf(*m),
            plans(out@, q),
            q + members_attributes(*m, o as int, k as int) == p + oneof_attributes(*m, o as int),
        decreases n - k,
    {
        plan_member(m, o, k, out, Ghost(q));
        proof {
            let mk = member_attributes(*m, o as int, k as int);
            let rest = members_attributes(*m, o as int, k + 1);
            assert(members_attributes(*m, o as int, k as int) == mk + rest);
            assert((q + mk) + rest =~= q + (mk + rest));
            q = q + mk;
        }
        k = k + 1;
    }
    assert(members_attributes(*m, o as int, k as int) =~= Seq::<PlannedAttribute>::empty());
    assert(q + Seq::<PlannedAttribute>::empty() =~= q);
}

/// Whether an earlier field of `m` with rules belongs to oneof `o`.
fn oneof_done(m: &MessageDesc, i: usize, o: usize) -> (b: bool)
    requires
        i <= m.fields@.len(),
    ensures
        b == oneof_done_before(*m, i as int, o),
{
    let mut j: usize = 0;
    while j < i
        invariant
            j <= i <= m.fields@.len(),
            forall|q: int| 0 <= q < j ==> !((#[trigger] m.fields@[q]).has_rules && m.fields@[q].oneof == Some(o)),
        decreases i - j,
    {
        if m.fields[j].has_rules && m.fields[j].oneof == Some(o) {
            assert(m.fields@[j as int].has_rules);
            return true;
        }
        j = j + 1;
    }
    false
}

/// Adds the attributes of field `i` of `m`.
fn plan_field(m: &MessageDesc, i: usize, out: &mut Vec<Attribute>, Ghost(p): Ghost<Seq<PlannedAttribute>>)
    requires
        i < m.fields@.len(),
        message_desc_wf(*m),
        plans(old(out)@, p),
    ensures
        plans(final(out)@, p + field_attributes(*m, i as int)),
{
    let f = &m.fields[i];
    emit(out, Attribute::Name { path: f.full_name.clone(), name: f.full_name.clone() }, Ghost(p));
    let ghost p1 = p.push(PlannedAttribute::Name(f.full_name@, f.full_name@));
    assert(p1 =~= p + seq![PlannedAttribute::Name(f.full_name@, f.full_name@)]);
    if !f.has_rules {
        assert(p1 =~= p + field_attributes(*m, i as int));
        return;
    }
    match f.oneof {
        Some(o) => {
            if oneof_done(m, i, o) || o >= m.oneofs.len() {
                assert(p1 =~= p + field_attributes(*m, i as int));
                return;
            }
            plan_oneof(m, o, out, Ghost(p1));
            assert(p1 + oneof_attributes(*m, o as int) =~= p + field_attributes(*m, i as int));
        },
        None => {
            if let Some(a) = &f.annotation {
                emit(out, Attribute::Rules { path: f.full_name.clone(), rules: a.clone() }, Ghost(p1));
                assert(p1.push(PlannedAttribute::Rules(f.full_name@, a@)) =~= p + field_attributes(*m, i as int));
            } else {
                assert(p1 =~= p + field_attributes(*m, i as int));
            }
        },
    }
}

/// Adds the attributes of message `m`.
fn plan_message(m: &MessageDesc, out: &mut Vec<Attribute>, Ghost(p): Ghost<Seq<PlannedAttribute>>)
    requires
        message_desc_wf(*m),
        plans(old(out)@, p),
    ensures
        plans(final(out)@, p + message_attributes(*m)),
{
    emit(out, Attribute::DeriveValidator { path: m.full_name.clone() }, Ghost(p));
    let ghost mut q = p.push(PlannedAttribute::DeriveValidator(m.full_name@));
    if m.ignored || m.disabled {
        assert(q =~= p + message_attributes(*m));
        return;
    }
    assert(q + fields_attributes(*m, 0) =~= p + message_attributes(*m));
    let n = m.fields.len();
    let mut i: usize = 0;
    while i < n
        invariant
            n == m.fields@.len(),
            i <= n,
            message_desc_wf(*m),
            plans(out@, q),
            q + fields_attributes(*m, i as int) == p + message_attributes(*m),
        decreases n - i,
    {
        plan_field(m, i, out, Ghost(q));
        proof {
            let fi = field_attributes(*m, i as int);
            let rest = fields_attributes(*m, i + 1);
            assert(fields_attributes(*m, i as int) == fi + rest);
            assert((q + fi) + rest =~= q + (fi + rest));
            q = q + fi;
        }
        i = i + 1;
    }
    assert(q + fields_attributes(*m, i as int) =~= q);
}

/// The attributes that configure the code generator for the message types
/// `messages`: each gets the validator derive and, unless its validation
/// is ignored or disabled, a name on each field, the rules of each field
/// that carries some, and its oneofs configured at their first member with
/// rules.
pub fn plan_attributes(messages: &Vec<MessageDesc>) -> (r: Vec<Attribute>)
    requires
        forall|i: int| 0 <= i < messages@.len() ==> message_desc_wf(#[trigger] messages@[i]),
    ensures
        plans(r@, all_attributes(messages@, 0)),
{
    let mut out: Vec<Attribute> = Vec::new();
    let ghost mut q: Seq<PlannedAttribute> = Seq::empty();
    let n = messages.len();
    let mut i: usize = 0;
    assert(q + all_attributes(messages@, 0) =~= all_attributes(messages@, 0));
    while i < n
        invariant
            n == messages@.len(),
            i <= n,
            forall|j: int| 0 <= j < messages@.len() ==> message_desc_wf(#[trigger] messages@[j]),
            plans(out@, q),
            q + all_attributes(messages@, i as int) == all_attributes(messages@, 0),
        decreases n - i,
    {
        assert(message_desc_wf(messages@[i as int]));
        plan_message(&messages[i], &mut out, Ghost(q));
        proof {
            let mi = message_attributes(messages@[i as int]);
            let rest = all_attributes(messages@, i + 1);
            assert(all_attributes(messages@, i as int) == mi + rest);
            assert((q + mi) + rest =~= q + (mi + rest));
            q = q + mi;
        }
        i = i + 1;
    }
    assert(q + all_attributes(messages@, i as int) =~= q);
    out
}

} // verus!
