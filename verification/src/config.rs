//! The application's configuration record.

use vstd::prelude::*;
use vstd::multiset::Multiset;
use validator::ValidationErrors;

verus! {

/// `validator::ValidationErrors`, the errors of a failed validation by
/// field. Opaque here.
#[verifier::external_type_specification]
#[verifier::external_body]
pub struct ExValidationErrors(validator::ValidationErrors);

/// The field-level errors that a failed validation holds, each as the
/// pair of its field's name and its code. Errors of nested records are
/// not among them.
pub uninterp spec fn field_errors_held(errors: ValidationErrors) -> Multiset<(Seq<char>, Seq<char>)>;

/// Calls `validator::ValidationErrors::field_errors` and renders each
/// error through its `Display` impl, one list per field. Claims that there
/// is one message for each field-level error held. The fields come in no
/// fixed order, and the text of an error without a message of its own
/// walks a hash map, so nothing is claimed of the texts or their order.
#[verifier::external_body]
fn field_messages(errors: &ValidationErrors) -> (groups: Vec<Vec<String>>)
    ensures
        concat_all(groups@).len() == field_errors_held(*errors).len(),
{
    errors.field_errors().values().map(|list| list.iter().map(|e| format!("{}", e)).collect()).collect()
}

/// The members of all groups in one sequence: group after group, each in
/// its own order.
pub open spec fn concat_all(groups: Seq<Vec<String>>) -> Seq<String>
    decreases groups.len(),
{
    if groups.len() == 0 {
        Seq::empty()
    } else {
        concat_all(groups.drop_last()) + groups.last()@
    }
}

/// Joins the groups into one list, keeping every message and the order
/// within and between groups.
pub fn flattened(groups: &Vec<Vec<String>>) -> (all: Vec<String>)
    ensures
        all@ == concat_all(groups@),
{
    let mut all: Vec<String> = Vec::new();
    let mut i: usize = 0;
    while i < groups.len()
        invariant
            i <= groups.len(),
            all@ == concat_all(groups@.subrange(0, i as int)),
        decreases groups.len() - i,
    {
        let group = &groups[i];
        let ghost before = all@;
        let mut j: usize = 0;
        while j < group.len()
            invariant
                j <= group.len(),
                all@ == before + group@.subrange(0, j as int),
            decreases group.len() - j,
        {
            all.push(group[j].clone());
            assert(group@.subrange(0, j + 1) =~= group@.subrange(0, j as int).push(group@[j as int]));
            j += 1;
        }
        proof {
            let next = groups@.subrange(0, i + 1);
            assert(group@.subrange(0, group@.len() as int) =~= group@);
            assert(next.drop_last() =~= groups@.subrange(0, i as int));
            assert(next.last() == groups@[i as int]);
        }
        i += 1;
    }
    assert(groups@.subrange(0, groups@.len() as int) =~= groups@);
    all
}

/// The validated configuration. It has no settings of its own yet.
#[derive(Debug, Clone, PartialEq, Eq)]
pub struct KyrieConfig {}

/// Why a configuration could not be loaded.
#[derive(Debug, PartialEq, Eq)]
pub struct ConfigError;

impl KyrieConfig {
    /// Loads the configuration: the default one. Never fails.
    pub fn load() -> (res: Result<KyrieConfig, ConfigError>)
        ensures
            res == Ok::<KyrieConfig, ConfigError>(KyrieConfig {  }),
    {
        Ok(KyrieConfig {  })
    }

    /// Validates the configuration and lists the message of every rule
    /// that a field breaks. With no fields no rule can be broken.
    pub fn validate_config(&self) -> (res: Result<(), Vec<String>>)
        ensures
            res is Ok,
    {
        Ok(())
    }

    /// The messages of a failed validation: one for every field-level
    /// error held, field after field, the errors of one field together and
    /// in their order. In which order the fields come is left open.
    pub fn messages(errors: &ValidationErrors) -> (all: Vec<String>)
        ensures
            all@.len() == field_errors_held(*errors).len(),
    {
        let groups = field_messages(errors);
        flattened(&groups)
    }
}

impl Default for KyrieConfig {
    fn default() -> (config: KyrieConfig)
        ensures
            config == (KyrieConfig {  }),
    {
        KyrieConfig {  }
    }
}

} // verus!
