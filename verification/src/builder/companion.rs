//! A companion runs one relay chain together with its parachains. This module
//! holds its decisions: which builder a request for a chain goes to, the order
//! in which the chains evolve, and how the fields of a companion definition are
//! classified.

use vstd::prelude::*;

verus! {

/// A chain of a companion: the relay chain or the parachain with this id.
#[derive(Copy, Clone, Eq, PartialOrd, PartialEq, Ord, Hash, Debug, Structural)]
pub enum Chain {
    Relay,
    Para(u32),
}

/// The builder a request goes to: the relay chain's, or the parachain builder
/// at this position among the companion's parachains.
#[derive(Copy, Clone, PartialEq, Eq, Debug, Structural)]
pub enum Target {
    Relay,
    Para(usize),
}

/// The builder that serves `chain`, given the ids of the companion's
/// parachains in declaration order: the first parachain with that id, or none.
pub fn route(chain: Chain, para_ids: &Vec<u32>) -> (r: Option<Target>)
    ensures
        chain == Chain::Relay ==> r == Some(Target::Relay),
        chain matches Chain::Para(id) ==> (r is None <==> !para_ids@.contains(id)),
        chain matches Chain::Para(id) ==> (r matches Some(Target::Para(i)) ==> i < para_ids@.len()
            && para_ids@[i as int] == id && forall|j: int| 0 <= j < i ==> para_ids@[j] != id),
        chain matches Chain::Para(_) ==> r != Some(Target::Relay),
{
    match chain {
        Chain::Relay => Some(Target::Relay),
        Chain::Para(id) => {
            let mut i: usize = 0;
            while i < para_ids.len()
                invariant
                    i <= para_ids@.len(),
                    chain == Chain::Para(id),
                    forall|j: int| 0 <= j < i ==> para_ids@[j] != id,
                decreases para_ids@.len() - i,
            {
                if para_ids[i] == id {
                    assert(para_ids@.contains(id));
                    return Some(Target::Para(i));
                }
                i = i + 1;
            }
            None
        },
    }
}

/// One step of evolving a companion.
#[derive(Copy, Clone, PartialEq, Eq, Debug, Structural)]
pub enum Step {
    /// Build a relay chain block.
    RelayBuild,
    /// Import the relay chain block built last.
    RelayImport,
    /// Build a block of the parachain at this position.
    ParaBuild(usize),
    /// Import the block of the parachain at this position.
    ParaImport(usize),
    /// Register the parachain at this position with the relay chain again,
    /// with its latest head and code.
    Onboard(usize),
}

/// Building and importing a block of each of the first `n` parachains, in order.
pub open spec fn para_rounds(n: nat) -> Seq<Step>
    decreases n,
{
    if n == 0 {
        Seq::<Step>::empty()
    } else {
        para_rounds((n - 1) as nat).push(Step::ParaBuild((n - 1) as usize)).push(
            Step::ParaImport((n - 1) as usize),
        )
    }
}

/// Onboarding each of the first `n` parachains, in order.
pub open spec fn onboardings(n: nat) -> Seq<Step> {
    Seq::new(n, |i: int| Step::Onboard(i as usize))
}

/// One evolution of a companion with `n` parachains: a relay chain block, a
/// block of every parachain, another relay chain block, then every parachain
/// onboarded again with its new head.
pub open spec fn evolution(n: nat) -> Seq<Step> {
    seq![Step::RelayBuild, Step::RelayImport] + para_rounds(n) + seq![
        Step::RelayBuild,
        Step::RelayImport,
    ] + onboardings(n)
}

/// The `k`-th step of the parachain rounds: even steps build a block of
/// parachain `k / 2`, odd steps import it.
pub open spec fn para_step(k: int) -> Step {
    if k % 2 == 0 {
        Step::ParaBuild((k / 2) as usize)
    } else {
        Step::ParaImport((k / 2) as usize)
    }
}

/// The shape of the parachain rounds: parachain `i` builds at position `2i`
/// and imports right after.
pub proof fn lemma_para_rounds_shape(n: nat)
    ensures
        para_rounds(n).len() == 2 * n,
        forall|k: int| 0 <= k < 2 * n ==> #[trigger] para_rounds(n)[k] == para_step(k),
    decreases n,
{
    if n > 0 {
        lemma_para_rounds_shape((n - 1) as nat);
        assert forall|k: int| 0 <= k < 2 * n implies #[trigger] para_rounds(n)[k] == para_step(k) by {
            if k < 2 * (n - 1) {
                assert(para_rounds(n)[k] == para_rounds((n - 1) as nat)[k]);
            } else if k == 2 * (n - 1) {
                assert(k % 2 == 0 && k / 2 == n - 1);
            } else {
                assert(k % 2 == 1 && k / 2 == n - 1);
            }
        }
    }
}

/// One evolution builds and imports a relay chain block, then builds and
/// imports one block of every parachain in order, then builds and imports a
/// second relay chain block, and finally onboards every parachain again.
pub proof fn lemma_evolution_shape(n: nat)
    ensures
        evolution(n).len() == 3 * n + 4,
        evolution(n)[0] == Step::RelayBuild,
        evolution(n)[1] == Step::RelayImport,
        forall|k: int| 2 <= k < 2 + 2 * n ==> #[trigger] evolution(n)[k] == para_step(k - 2),
        evolution(n)[(2 + 2 * n) as int] == Step::RelayBuild,
        evolution(n)[(3 + 2 * n) as int] == Step::RelayImport,
        forall|k: int| 4 + 2 * n <= k < 4 + 3 * n ==> #[trigger] evolution(n)[k] == Step::Onboard(
            (k - 4 - 2 * n) as usize,
        ),
{
    lemma_para_rounds_shape(n);
    let head = seq![Step::RelayBuild, Step::RelayImport];
    let mid = seq![Step::RelayBuild, Step::RelayImport];
    let first = head + para_rounds(n);
    let second = first + mid;
    assert(evolution(n) == second + onboardings(n));
    assert forall|k: int| 2 <= k < 2 + 2 * n implies #[trigger] evolution(n)[k] == para_step(k - 2) by {
        assert(second[k] == first[k]);
        assert(first[k] == para_rounds(n)[k - 2]);
    }
    assert(second[(2 + 2 * n) as int] == Step::RelayBuild);
    assert(second[(3 + 2 * n) as int] == Step::RelayImport);
}

/// The steps of one evolution of a companion with `n` parachains; running them
/// in order stops at the first that fails.
pub fn evolve_plan(n: usize) -> (r: Vec<Step>)
    ensures
        r@ == evolution(n as nat),
{
    let mut steps: Vec<Step> = Vec::new();
    steps.push(Step::RelayBuild);
    steps.push(Step::RelayImport);
    let mut i: usize = 0;
    while i < n
        invariant
            i <= n,
            steps@ == seq![Step::RelayBuild, Step::RelayImport] + para_rounds(i as nat),
        decreases n - i,
    {
        steps.push(Step::ParaBuild(i));
        steps.push(Step::ParaImport(i));
        assert(para_rounds((i + 1) as nat) == para_rounds(i as nat).push(Step::ParaBuild(i)).push(
            Step::ParaImport(i),
        ));
        i = i + 1;
    }
    steps.push(Step::RelayBuild);
    steps.push(Step::RelayImport);
    let ghost before = steps@;
    let mut k: usize = 0;
    while k < n
        invariant
            k <= n,
            steps@ == before + onboardings(k as nat),
        decreases n - k,
    {
        steps.push(Step::Onboard(k));
        assert(onboardings((k + 1) as nat) =~= onboardings(k as nat).push(Step::Onboard(k)));
        k = k + 1;
    }
    assert(steps@ =~= evolution(n as nat));
    steps
}

/// What running a plan of steps does next.
#[derive(Copy, Clone, PartialEq, Eq, Debug, Structural)]
pub enum RunControl {
    /// Perform this step.
    Perform(Step),
    /// Every step succeeded.
    Finished,
    /// A step failed; the steps after it are not performed.
    Stopped,
}

/// The next action while running `plan`, once its first `done` steps
/// succeeded and the step performed last failed or not: a failure stops the
/// run, and the run finishes after its last step.
pub fn next_action(plan: &Vec<Step>, done: usize, failed: bool) -> (r: RunControl)
    ensures
        failed ==> r == RunControl::Stopped,
        !failed && done >= plan@.len() ==> r == RunControl::Finished,
        !failed && done < plan@.len() ==> r == RunControl::Perform(plan@[done as int]),
{
    if failed {
        RunControl::Stopped
    } else if done < plan.len() {
        RunControl::Perform(plan[done])
    } else {
        RunControl::Finished
    }
}

/// The steps that set a companion with `n` parachains up: every parachain is
/// onboarded, in declaration order.
pub fn setup_plan(n: usize) -> (r: Vec<Step>)
    ensures
        r@ == onboardings(n as nat),
{
    let mut steps: Vec<Step> = Vec::new();
    let mut k: usize = 0;
    while k < n
        invariant
            k <= n,
            steps@ == onboardings(k as nat),
        decreases n - k,
    {
        steps.push(Step::Onboard(k));
        assert(onboardings((k + 1) as nat) =~= onboardings(k as nat).push(Step::Onboard(k)));
        k = k + 1;
    }
    steps
}

/// Errors in a companion definition.
#[derive(Copy, Clone, PartialEq, Eq, Debug, Structural)]
pub enum DefinitionError {
    /// A `fudge` attribute does not have exactly two path segments.
    ExpectedPathSegments,
    /// The attribute's tokens are not a parachain id.
    InvalidParaId,
    /// A parachain field has no name.
    ParachainIdentNotFound,
    /// A relay chain field has no name.
    RelaychainIdentNotFound,
    /// A `fudge` attribute other than `parachain` or `relaychain`.
    UnsupportedAttribute,
    /// More than one relay chain field.
    OnlyOneRelaychain,
    /// No relay chain field.
    RelaychainNotFound,
    /// The companion attribute was given arguments.
    UnexpectedArguments,
    /// The definition is a unit struct.
    UnitStruct,
    /// The definition is a struct with unnamed fields.
    UnnamedFields,
}

/// The kind of struct a companion is defined with.
#[derive(Copy, Clone, PartialEq, Eq, Debug, Structural)]
pub enum FieldsKind {
    Named,
    Unnamed,
    Unit,
}

/// The companion attribute takes no arguments.
pub fn check_attribute(attr_is_empty: bool) -> (r: Result<(), DefinitionError>)
    ensures
        attr_is_empty <==> r is Ok,
        r matches Err(e) ==> e == DefinitionError::UnexpectedArguments,
{
    if attr_is_empty {
        Ok(())
    } else {
        Err(DefinitionError::UnexpectedArguments)
    }
}

/// An attribute of a field: the segments of its path and, when its tokens
/// parse as a parachain id, that id's tokens.
#[derive(Debug)]
pub struct AttrDef {
    pub segments: Vec<String>,
    pub para_id: Option<String>,
}

/// A field of a companion definition: its name and its attributes.
#[derive(Debug)]
pub struct FieldDef {
    pub name: Option<String>,
    pub attrs: Vec<AttrDef>,
}

/// The role of a field in a companion definition.
#[derive(Debug)]
pub enum FieldType {
    /// A parachain builder, with its field name and id tokens.
    Parachain(String, String),
    /// The relay chain builder, with its field name.
    Relaychain(String),
    /// Any other field, handed back unchanged.
    Other(FieldDef),
}

/// Whether an attribute path starts with the segment `fudge`.
pub open spec fn is_fudge_path(segments: Seq<String>) -> bool {
    segments.len() > 0 && segments[0]@ == "fudge"@
}

/// The role the first `fudge` attribute gives a field, or the error it causes.
pub open spec fn field_type_of(name: Option<String>, attr: AttrDef) -> Result<FieldType, DefinitionError> {
    if attr.segments@.len() != 2 {
        Err(DefinitionError::ExpectedPathSegments)
    } else if attr.segments@[1]@ == "parachain"@ {
        match attr.para_id {
            None => Err(DefinitionError::InvalidParaId),
            Some(id) => match name {
                None => Err(DefinitionError::ParachainIdentNotFound),
                Some(n) => Ok(FieldType::Parachain(n, id)),
            },
        }
    } else if attr.segments@[1]@ == "relaychain"@ {
        match name {
            None => Err(DefinitionError::RelaychainIdentNotFound),
            Some(n) => Ok(FieldType::Relaychain(n)),
        }
    } else {
        Err(DefinitionError::UnsupportedAttribute)
    }
}

/// Whether `s` is the string `lit`.
fn is_str(s: &String, lit: &str) -> (r: bool)
    ensures
        r == (s@ == lit@),
{
    let other = lit.to_owned();
    *s == other
}

/// Classifies a field by its first `fudge` attribute: a field without one is
/// `Other`; otherwise the attribute must be `fudge::parachain` (with a
/// parachain id) or `fudge::relaychain`, and the field must be named.
pub fn parse_field(field: FieldDef) -> (r: Result<FieldType, DefinitionError>)
    ensures
        r == parsed_field(field),
        forall|i: int|
            0 <= i < field.attrs@.len() && is_fudge_path(#[trigger] field.attrs@[i].segments@) && (forall|j: int|
                0 <= j < i ==> !is_fudge_path(#[trigger] field.attrs@[j].segments@)) ==> r == field_type_of(
                field.name,
                field.attrs@[i],
            ),
        (forall|j: int| 0 <= j < field.attrs@.len() ==> !is_fudge_path(#[trigger] field.attrs@[j].segments@))
            ==> r == Ok::<FieldType, DefinitionError>(FieldType::Other(field)),
{
    proof {
        assert forall|i: int|
            0 <= i < field.attrs@.len() && is_fudge_path(#[trigger] field.attrs@[i].segments@) && (forall|j: int|
                0 <= j < i ==> !is_fudge_path(#[trigger] field.attrs@[j].segments@)) implies parsed_field(field)
            == field_type_of(field.name, field.attrs@[i]) by {
            lemma_field_classified_by_first_fudge_attribute(field, i);
        }
        if forall|j: int| 0 <= j < field.attrs@.len() ==> !is_fudge_path(#[trigger] field.attrs@[j].segments@) {
            lemma_field_without_fudge_attribute_is_other(field);
        }
    }
    let mut i: usize = 0;
    assert(field.attrs@.skip(0) =~= field.attrs@);
    while i < field.attrs.len()
        invariant
            i <= field.attrs@.len(),
            forall|i: int|
                0 <= i < field.attrs@.len() && is_fudge_path(#[trigger] field.attrs@[i].segments@) && (forall|j: int|
                    0 <= j < i ==> !is_fudge_path(#[trigger] field.attrs@[j].segments@)) ==> parsed_field(field)
                    == field_type_of(field.name, field.attrs@[i]),
            parse_attrs(field.name, field.attrs@, field) == parse_attrs(
                field.name,
                field.attrs@.skip(i as int),
                field,
            ),
        decreases field.attrs@.len() - i,
    {
        if is_fudge(&field.attrs[i].segments) {
            let FieldDef { name, attrs } = field;
            let mut attrs = attrs;
            let attr = attrs.remove(i);
            return classify(name, attr);
        }
        assert(field.attrs@.skip(i as int).drop_first() =~= field.attrs@.skip(i + 1));
        i = i + 1;
    }
    Ok(FieldType::Other(field))
}

/// The role of a field: given by its first attribute among `attrs` whose path
/// starts with `fudge`, or `Other` when there is none.
pub open spec fn parse_attrs(name: Option<String>, attrs: Seq<AttrDef>, field: FieldDef) -> Result<
    FieldType,
    DefinitionError,
>
    decreases attrs.len(),
{
    if attrs.len() == 0 {
        Ok(FieldType::Other(field))
    } else if is_fudge_path(attrs[0].segments@) {
        field_type_of(name, attrs[0])
    } else {
        parse_attrs(name, attrs.drop_first(), field)
    }
}

/// The role of a field in a companion definition, or why it has none.
pub open spec fn parsed_field(field: FieldDef) -> Result<FieldType, DefinitionError> {
    parse_attrs(field.name, field.attrs@, field)
}

/// A field is classified by its first attribute whose path starts with
/// `fudge`, whatever other attributes stand before or after it.
pub proof fn lemma_field_classified_by_first_fudge_attribute(field: FieldDef, i: int)
    requires
        0 <= i < field.attrs@.len(),
        is_fudge_path(field.attrs@[i].segments@),
        forall|j: int| 0 <= j < i ==> !is_fudge_path(#[trigger] field.attrs@[j].segments@),
    ensures
        parsed_field(field) == field_type_of(field.name, field.attrs@[i]),
{
    lemma_parse_attrs_first_fudge(field.name, field.attrs@, field, i);
}

/// A field without any attribute whose path starts with `fudge` is `Other`,
/// handed back unchanged.
pub proof fn lemma_field_without_fudge_attribute_is_other(field: FieldDef)
    requires
        forall|j: int| 0 <= j < field.attrs@.len() ==> !is_fudge_path(#[trigger] field.attrs@[j].segments@),
    ensures
        parsed_field(field) == Ok::<FieldType, DefinitionError>(FieldType::Other(field)),
{
    lemma_parse_attrs_no_fudge(field.name, field.attrs@, field);
}

proof fn lemma_parse_attrs_first_fudge(name: Option<String>, attrs: Seq<AttrDef>, field: FieldDef, i: int)
    requires
        0 <= i < attrs.len(),
        is_fudge_path(attrs[i].segments@),
        forall|j: int| 0 <= j < i ==> !is_fudge_path(#[trigger] attrs[j].segments@),
    ensures
        parse_attrs(name, attrs, field) == field_type_of(name, attrs[i]),
    decreases attrs.len(),
{
    if i > 0 {
        assert(!is_fudge_path(attrs[0].segments@));
        let rest = attrs.drop_first();
        assert forall|j: int| 0 <= j < i - 1 implies !is_fudge_path(#[trigger] rest[j].segments@) by {
            assert(rest[j] == attrs[j + 1]);
        }
        lemma_parse_attrs_first_fudge(name, rest, field, i - 1);
    }
}

proof fn lemma_parse_attrs_no_fudge(name: Option<String>, attrs: Seq<AttrDef>, field: FieldDef)
    requires
        forall|j: int| 0 <= j < attrs.len() ==> !is_fudge_path(#[trigger] attrs[j].segments@),
    ensures
        parse_attrs(name, attrs, field) == Ok::<FieldType, DefinitionError>(FieldType::Other(field)),
    decreases attrs.len(),
{
    if attrs.len() > 0 {
        assert(!is_fudge_path(attrs[0].segments@));
        let rest = attrs.drop_first();
        assert forall|j: int| 0 <= j < rest.len() implies !is_fudge_path(#[trigger] rest[j].segments@) by {
            assert(rest[j] == attrs[j + 1]);
        }
        lemma_parse_attrs_no_fudge(name, rest, field);
    }
}

/// Whether an attribute path starts with the segment `fudge`.
fn is_fudge(segments: &Vec<String>) -> (r: bool)
    ensures
        r == is_fudge_path(segments@),
{
    segments.len() > 0 && is_str(&segments[0], "fudge")
}

/// The role a `fudge` attribute gives a field with the given name.
fn classify(name: Option<String>, attr: AttrDef) -> (r: Result<FieldType, DefinitionError>)
    ensures
        r == field_type_of(name, attr),
{
    if attr.segments.len() != 2 {
        Err(DefinitionError::ExpectedPathSegments)
    } else if is_str(&attr.segments[1], "parachain") {
        let AttrDef { segments, para_id } = attr;
        match para_id {
            None => Err(DefinitionError::InvalidParaId),
            Some(id) => match name {
                None => Err(DefinitionError::ParachainIdentNotFound),
                Some(n) => Ok(FieldType::Parachain(n, id)),
            },
        }
    } else if is_str(&attr.segments[1], "relaychain") {
        match name {
            None => Err(DefinitionError::RelaychainIdentNotFound),
            Some(n) => Ok(FieldType::Relaychain(n)),
        }
    } else {
        Err(DefinitionError::UnsupportedAttribute)
    }
}

/// The roles of the given fields, in order.
pub open spec fn field_types(fields: Seq<FieldDef>) -> Seq<Result<FieldType, DefinitionError>> {
    fields.map_values(|f: FieldDef| parsed_field(f))
}

/// The parts of a companion definition found so far.
pub struct Scan {
    pub relaychain: Option<String>,
    pub parachains: Seq<(String, String)>,
    pub others: Seq<FieldDef>,
}

/// Reading the field roles `types` in order on top of `acc`: the first error
/// stops the reading, and so does a second relay chain.
pub open spec fn scan_fields(types: Seq<Result<FieldType, DefinitionError>>, acc: Scan) -> Result<
    Scan,
    DefinitionError,
>
    decreases types.len(),
{
    if types.len() == 0 {
        Ok(acc)
    } else {
        match types[0] {
            Err(e) => Err(e),
            Ok(FieldType::Parachain(n, id)) => scan_fields(
                types.drop_first(),
                Scan { parachains: acc.parachains.push((n, id)), ..acc },
            ),
            Ok(FieldType::Relaychain(n)) => if acc.relaychain is Some {
                Err(DefinitionError::OnlyOneRelaychain)
            } else {
                scan_fields(types.drop_first(), Scan { relaychain: Some(n), ..acc })
            },
            Ok(FieldType::Other(f)) => scan_fields(
                types.drop_first(),
                Scan { others: acc.others.push(f), ..acc },
            ),
        }
    }
}

/// Nothing found yet.
pub open spec fn empty_scan() -> Scan {
    Scan {
        relaychain: None,
        parachains: Seq::<(String, String)>::empty(),
        others: Seq::<FieldDef>::empty(),
    }
}

/// A companion definition: the relay chain field, the parachain fields (name
/// and id tokens) in declaration order, and the other fields.
pub struct CompanionDef {
    pub relaychain: String,
    pub parachains: Vec<(String, String)>,
    pub others: Vec<FieldDef>,
}

impl CompanionDef {
    /// Reads a companion definition: it must be a struct with named fields,
    /// which are then read as `parse_struct` does.
    pub fn parse(kind: FieldsKind, fields: Vec<FieldDef>) -> (r: Result<CompanionDef, DefinitionError>)
        ensures
            kind == FieldsKind::Unit ==> r matches Err(DefinitionError::UnitStruct),
            kind == FieldsKind::Unnamed ==> r matches Err(DefinitionError::UnnamedFields),
            kind == FieldsKind::Named ==> parsed_struct_holds(fields@, r),
    {
        match kind {
            FieldsKind::Named => parse_struct(fields),
            FieldsKind::Unit => Err(DefinitionError::UnitStruct),
            FieldsKind::Unnamed => Err(DefinitionError::UnnamedFields),
        }
    }
}

/// What reading the fields gives (see `parse_struct`), stated for a run of
/// fields.
pub open spec fn parsed_struct_holds(fields: Seq<FieldDef>, r: Result<CompanionDef, DefinitionError>) -> bool {
    match scan_fields(field_types(fields), empty_scan()) {
        Err(e) => r == Err::<CompanionDef, DefinitionError>(e),
        Ok(st) => match st.relaychain {
            None => r == Err::<CompanionDef, DefinitionError>(DefinitionError::RelaychainNotFound),
            Some(relay) => r matches Ok(def) && def.relaychain == relay && def.parachains@ == st.parachains
                && def.others@ == st.others,
        },
    }
}

/// The position of the first field role that is an error, or the number of
/// roles when none is.
pub open spec fn first_error_at(types: Seq<Result<FieldType, DefinitionError>>) -> nat
    decreases types.len(),
{
    if types.len() == 0 {
        0
    } else if types[0] is Err {
        0
    } else {
        1 + first_error_at(types.drop_first())
    }
}

/// The names of the relay chain fields among `types`, in order.
pub open spec fn relay_names(types: Seq<Result<FieldType, DefinitionError>>) -> Seq<String>
    decreases types.len(),
{
    if types.len() == 0 {
        Seq::<String>::empty()
    } else {
        match types[0] {
            Ok(FieldType::Relaychain(n)) => seq![n] + relay_names(types.drop_first()),
            _ => relay_names(types.drop_first()),
        }
    }
}

/// The parachain fields (name and id tokens) among `types`, in order.
pub open spec fn parachain_entries(types: Seq<Result<FieldType, DefinitionError>>) -> Seq<(String, String)>
    decreases types.len(),
{
    if types.len() == 0 {
        Seq::<(String, String)>::empty()
    } else {
        match types[0] {
            Ok(FieldType::Parachain(n, id)) => seq![(n, id)] + parachain_entries(types.drop_first()),
            _ => parachain_entries(types.drop_first()),
        }
    }
}

/// The other fields among `types`, in order.
pub open spec fn other_entries(types: Seq<Result<FieldType, DefinitionError>>) -> Seq<FieldDef>
    decreases types.len(),
{
    if types.len() == 0 {
        Seq::<FieldDef>::empty()
    } else {
        match types[0] {
            Ok(FieldType::Other(f)) => seq![f] + other_entries(types.drop_first()),
            _ => other_entries(types.drop_first()),
        }
    }
}

/// Reading field roles on top of what was found already stops at a second
/// relay chain before the first error, otherwise at the first error, and
/// otherwise collects every relay chain, parachain and other field in order.
proof fn lemma_scan_fields(types: Seq<Result<FieldType, DefinitionError>>, acc: Scan)
    ensures
        ({
            let k = first_error_at(types);
            let rn = relay_names(types.take(k as int));
            let have: int = if acc.relaychain is Some { 1 } else { 0 };
            &&& k <= types.len()
            &&& (k < types.len() ==> types[k as int] is Err)
            &&& forall|j: int| 0 <= j < k ==> (#[trigger] types[j]) is Ok
            &&& scan_fields(types, acc) == if have + rn.len() >= 2 {
                Err::<Scan, DefinitionError>(DefinitionError::OnlyOneRelaychain)
            } else if k < types.len() {
                Err::<Scan, DefinitionError>(types[k as int]->Err_0)
            } else {
                Ok::<Scan, DefinitionError>(
                    Scan {
                        relaychain: if acc.relaychain is Some {
                            acc.relaychain
                        } else if rn.len() == 1 {
                            Some(rn[0])
                        } else {
                            None
                        },
                        parachains: acc.parachains + parachain_entries(types),
                        others: acc.others + other_entries(types),
                    },
                )
            }
        }),
    decreases types.len(),
{
    let k = first_error_at(types);
    if types.len() == 0 {
        assert(types.take(0) =~= Seq::<Result<FieldType, DefinitionError>>::empty());
        assert(acc.parachains + parachain_entries(types) =~= acc.parachains);
        assert(acc.others + other_entries(types) =~= acc.others);
    } else if types[0] is Err {
        assert(types.take(0) =~= Seq::<Result<FieldType, DefinitionError>>::empty());
    } else {
        let rest = types.drop_first();
        let acc2 = match types[0] {
            Ok(FieldType::Parachain(n, id)) => Scan { parachains: acc.parachains.push((n, id)), ..acc },
            Ok(FieldType::Relaychain(n)) => Scan { relaychain: Some(n), ..acc },
            Ok(FieldType::Other(f)) => Scan { others: acc.others.push(f), ..acc },
            Err(_) => acc,
        };
        lemma_scan_fields(rest, acc2);
        let kr = first_error_at(rest);
        assert(k == 1 + kr);
        assert(types.take(k as int).drop_first() =~= rest.take(kr as int));
        assert(types.take(k as int)[0] == types[0]);
        assert forall|j: int| 0 <= j < k implies (#[trigger] types[j]) is Ok by {
            if j > 0 {
                assert(types[j] == rest[j - 1]);
            }
        }
        if kr < rest.len() {
            assert(types[k as int] == rest[kr as int]);
        }
        match types[0] {
            Ok(FieldType::Parachain(n, id)) => {
                assert(relay_names(types.take(k as int)) =~= relay_names(rest.take(kr as int)));
                assert(acc2.parachains + parachain_entries(rest) =~= acc.parachains + parachain_entries(types));
                assert(other_entries(types) == other_entries(rest));
            },
            Ok(FieldType::Relaychain(n)) => {
                assert(relay_names(types.take(k as int)) =~= seq![n] + relay_names(rest.take(kr as int)));
                assert(parachain_entries(types) == parachain_entries(rest));
                assert(other_entries(types) == other_entries(rest));
                assert(acc.parachains + parachain_entries(types) =~= acc2.parachains + parachain_entries(rest));
                assert(acc.others + other_entries(types) =~= acc2.others + other_entries(rest));
            },
            Ok(FieldType::Other(f)) => {
                assert(relay_names(types.take(k as int)) =~= relay_names(rest.take(kr as int)));
                assert(acc2.others + other_entries(rest) =~= acc.others + other_entries(types));
                assert(parachain_entries(types) == parachain_entries(rest));
            },
            Err(_) => {},
        }
    }
}

/// What reading a companion definition gives, in terms of the fields' roles:
/// `OnlyOneRelaychain` when a second relay chain field comes before any field
/// in error; otherwise the error of the first field in error; otherwise
/// `RelaychainNotFound` without a relay chain field; and otherwise the
/// definition holding the relay chain and, in declaration order, every
/// parachain field and every other field. A definition is only returned when
/// every field was classified.
pub proof fn lemma_parsed_struct(fields: Seq<FieldDef>, r: Result<CompanionDef, DefinitionError>)
    requires
        parsed_struct_holds(fields, r),
    ensures
        ({
            let types = field_types(fields);
            let k = first_error_at(types);
            let rn = relay_names(types.take(k as int));
            &&& rn.len() >= 2 ==> r == Err::<CompanionDef, DefinitionError>(DefinitionError::OnlyOneRelaychain)
            &&& rn.len() <= 1 && k < fields.len() ==> r == Err::<CompanionDef, DefinitionError>(
                parsed_field(fields[k as int])->Err_0,
            )
            &&& k == fields.len() && rn.len() == 0 ==> r == Err::<CompanionDef, DefinitionError>(
                DefinitionError::RelaychainNotFound,
            )
            &&& k == fields.len() && rn.len() == 1 ==> (r matches Ok(def) && def.relaychain == rn[0]
                && def.parachains@ == parachain_entries(types) && def.others@ == other_entries(types))
            &&& r is Ok ==> forall|i: int| 0 <= i < fields.len() ==> (#[trigger] parsed_field(fields[i])) is Ok
        }),
{
    let types = field_types(fields);
    lemma_scan_fields(types, empty_scan());
    assert(empty_scan().parachains + parachain_entries(types) =~= parachain_entries(types));
    assert(empty_scan().others + other_entries(types) =~= other_entries(types));
    assert(types.len() == fields.len());
    assert forall|i: int| 0 <= i < fields.len() implies #[trigger] types[i] == parsed_field(fields[i]) by {}
    let k = first_error_at(types);
    if k < fields.len() {
        assert(types[k as int] == parsed_field(fields[k as int]));
    }
    if r is Ok {
        assert forall|i: int| 0 <= i < fields.len() implies (#[trigger] parsed_field(fields[i])) is Ok by {
            assert(types[i] == parsed_field(fields[i]));
        }
    }
}

/// Reads the fields of a companion definition: each field is classified, the
/// first misplaced field is reported, and exactly one relay chain is required.
pub fn parse_struct(fields: Vec<FieldDef>) -> (r: Result<CompanionDef, DefinitionError>)
    ensures
        parsed_struct_holds(fields@, r),
        ({
            let types = field_types(fields@);
            let k = first_error_at(types);
            let rn = relay_names(types.take(k as int));
            &&& rn.len() >= 2 ==> r == Err::<CompanionDef, DefinitionError>(DefinitionError::OnlyOneRelaychain)
            &&& rn.len() <= 1 && k < fields@.len() ==> r == Err::<CompanionDef, DefinitionError>(
                parsed_field(fields@[k as int])->Err_0,
            )
            &&& k == fields@.len() && rn.len() == 0 ==> r == Err::<CompanionDef, DefinitionError>(
                DefinitionError::RelaychainNotFound,
            )
            &&& k == fields@.len() && rn.len() == 1 ==> (r matches Ok(def) && def.relaychain == rn[0]
                && def.parachains@ == parachain_entries(types) && def.others@ == other_entries(types))
            &&& r is Ok ==> forall|i: int| 0 <= i < fields@.len() ==> (#[trigger] parsed_field(fields@[i])) is Ok
        }),
{
    let ghost input = fields@;
    let r = read_fields(fields);
    proof { lemma_parsed_struct(input, r); }
    r
}

/// Reads the fields one by one, as `parse_struct` describes.
fn read_fields(fields: Vec<FieldDef>) -> (r: Result<CompanionDef, DefinitionError>)
    ensures
        parsed_struct_holds(fields@, r),
{
    let ghost types = field_types(fields@);
    let mut rest = fields;
    let mut relaychain: Option<String> = None;
    let mut parachains: Vec<(String, String)> = Vec::new();
    let mut others: Vec<FieldDef> = Vec::new();
    let ghost mut k: int = 0;
    assert(types.skip(0) =~= types);
    assert(parachains@ =~= Seq::<(String, String)>::empty());
    assert(others@ =~= Seq::<FieldDef>::empty());
    while rest.len() > 0
        invariant
            0 <= k <= types.len(),
            types == field_types(fields@),
            field_types(rest@) == types.skip(k),
            scan_fields(types, empty_scan()) == scan_fields(
                types.skip(k),
                Scan { relaychain, parachains: parachains@, others: others@ },
            ),
        decreases rest@.len(),
    {
        let ghost before = rest@;
        let field = rest.remove(0);
        assert(field_types(before)[0] == parsed_field(field));
        assert(field_types(rest@) =~= types.skip(k).drop_first());
        assert(types.skip(k).drop_first() =~= types.skip(k + 1));
        assert(types.skip(k)[0] == parsed_field(field));
        assert(types.skip(k).len() > 0);
        let ghost acc = Scan { relaychain, parachains: parachains@, others: others@ };
        assert(scan_fields(types, empty_scan()) == scan_fields(types.skip(k), acc));
        match parse_field(field) {
            Err(e) => {
                assert(scan_fields(types.skip(k), acc) == Err::<Scan, DefinitionError>(e));
                return Err(e);
            },
            Ok(FieldType::Parachain(n, id)) => {
                parachains.push((n, id));
            },
            Ok(FieldType::Relaychain(n)) => {
                if relaychain.is_some() {
                    assert(scan_fields(types.skip(k), acc) == Err::<Scan, DefinitionError>(
                        DefinitionError::OnlyOneRelaychain,
                    ));
                    return Err(DefinitionError::OnlyOneRelaychain);
                }
                relaychain = Some(n);
            },
            Ok(FieldType::Other(f)) => {
                others.push(f);
            },
        }
        proof { k = k + 1; }
    }
    assert(types.skip(k) =~= Seq::<Result<FieldType, DefinitionError>>::empty());
    match relaychain {
        None => Err(DefinitionError::RelaychainNotFound),
        Some(relay) => Ok(CompanionDef { relaychain: relay, parachains, others }),
    }
}

} // verus!
