//! The normalized shape of one declared file entry, and its construction
//! from the optional fields of a parsed document entry.
use vstd::prelude::*;
use vstd::string::StringExecFns;
use crate::classify::Decision;
use crate::classify::FilterConfig;
use crate::classify::decide;
use crate::classify::decide_spec;
use crate::report::line_of;
use crate::report::render_line;
use crate::resolve::ResolvedPath;

verus! {

/// One declared file a program manages, with every optional field already
/// defaulted.
pub struct Descriptor {
    /// Display label; `"Unknown"` when the entry gave none.
    pub name: String,
    /// The declared path, before expansion; the entry is only built when
    /// this was present.
    pub raw_path: String,
    /// Whether the tool considers this file's handling supported; `false`
    /// when the entry gave none.
    pub movable: bool,
    /// Free-form guidance text; `"No help available"` when the entry gave
    /// none.
    pub help: String,
}

/// The mathematical content of a descriptor: each text field as a
/// character sequence.
#[verifier::ext_equal]
pub struct DescriptorModel {
    pub name: Seq<char>,
    pub raw_path: Seq<char>,
    pub movable: bool,
    pub help: Seq<char>,
}

impl View for Descriptor {
    type V = DescriptorModel;

    open spec fn view(&self) -> DescriptorModel {
        DescriptorModel {
            name: self.name@,
            raw_path: self.raw_path@,
            movable: self.movable,
            help: self.help@,
        }
    }
}

/// The label used when an entry names no `name`.
pub open spec fn default_name() -> Seq<char> {
    "Unknown"@
}

/// The guidance text used when an entry names no `help`.
pub open spec fn default_help() -> Seq<char> {
    "No help available"@
}

/// Build the descriptor for one entry from its extracted fields, each
/// `None` when the entry lacked the key or gave it the wrong type. An
/// entry without a usable `path` yields no descriptor (and no error).
pub fn build_descriptor(
    name: Option<String>,
    path: Option<String>,
    movable: Option<bool>,
    help: Option<String>,
) -> (r: Option<Descriptor>)
    ensures
        r is Some <==> path is Some,
        r is Some ==> r->0.raw_path@ == path->0@,
        r is Some ==> r->0.name@ == (if name is Some {
            name->0@
        } else {
            default_name()
        }),
        r is Some ==> r->0.movable == (if movable is Some {
            movable->0
        } else {
            false
        }),
        r is Some ==> r->0.help@ == (if help is Some {
            help->0@
        } else {
            default_help()
        }),
{
    match path {
        None => None,
        Some(raw_path) => {
            let name = match name {
                Some(n) => n,
                None => String::from_str("Unknown"),
            };
            let help = match help {
                Some(h) => h,
                None => String::from_str("No help available"),
            };
            let movable = match movable {
                Some(m) => m,
                None => false,
            };
            Some(Descriptor { name, raw_path, movable, help })
        },
    }
}

/// Decide one descriptor under `config`, given its resolved path, and
/// format its report line when it is shown.
pub fn report_line(d: &Descriptor, resolved: &ResolvedPath, config: FilterConfig) -> (r: Option<
    String,
>)
    ensures
        r is Some <==> decide_spec(resolved.exists, d.movable, config) is Show,
        r is Some ==> r->0@ == line_of(d.name@, resolved.expanded_path@, d.help@),
{
    match decide(resolved.exists, d.movable, config) {
        Decision::Show => Some(
            render_line(d.name.as_str(), resolved.expanded_path.as_str(), d.help.as_str()),
        ),
        Decision::Hide => None,
    }
}

} // verus!
