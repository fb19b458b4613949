//! The settings of one distro, and their rendering as text.

use vstd::prelude::*;
use vstd::string::StringExecFns;
use crate::flags::DistroFlags;
use crate::render::{binary, decimal, join, joined, push_binary, push_decimal, texts};

verus! {

/// The settings of one registered distro.
#[derive(Clone, Debug, PartialEq, Eq)]
pub struct DistroConfiguration {
    /// The name under which the distro is registered.
    pub name: String,
    /// The version of the subsystem that runs the distro.
    pub version: u32,
    /// The Linux user that a launched process runs as.
    pub default_uid: u32,
    /// The capabilities that are on.
    pub flags: DistroFlags,
    /// The environment of a launched process, one `NAME=value` each.
    pub default_environment_variables: Vec<String>,
}

/// A `DistroConfiguration` with its texts as sequences of characters.
pub struct DistroConfigurationView {
    pub name: Seq<char>,
    pub version: u32,
    pub default_uid: u32,
    pub flags: DistroFlags,
    pub default_environment_variables: Seq<Seq<char>>,
}

impl View for DistroConfiguration {
    type V = DistroConfigurationView;

    open spec fn view(&self) -> DistroConfigurationView {
        DistroConfigurationView {
            name: self.name@,
            version: self.version,
            default_uid: self.default_uid,
            flags: self.flags,
            default_environment_variables: texts(self.default_environment_variables@),
        }
    }
}

/// `text` between double quotes.
pub open spec fn quoted(text: Seq<char>) -> Seq<char> {
    "\""@ + text + "\""@
}

/// The text block of a configuration: a section header with the name, then
/// one line each for the version and the default user, two comments that
/// give the flags in binary and by name, the flags as a binary literal, and
/// the environment as a bracketed list of quoted strings.
pub open spec fn toml_text(configuration: DistroConfigurationView) -> Seq<char> {
    "["@ + configuration.name + "]\nversion = "@ + decimal(configuration.version as nat)
        + "\ndefault_uid = "@ + decimal(configuration.default_uid as nat) + "\n# flags: 0b"@
        + binary(configuration.flags.mask() as nat) + "\n# "@ + configuration.flags.text()
        + "\ndistro_flags = 0b"@ + binary(configuration.flags.mask() as nat)
        + "\ndefault_environment_values = ["@ + joined(
        configuration.default_environment_variables.map_values(|v: Seq<char>| quoted(v)),
        ", "@,
    ) + "]"@
}

/// `text` between double quotes.
fn quote(text: &str) -> (r: String)
    ensures
        r@ == quoted(text@),
{
    let mut r = String::from_str("\"");
    r.append(text);
    r.append("\"");
    r
}

impl DistroConfiguration {
    /// Renders the configuration as a block of text.
    pub fn to_toml(&self) -> (text: String)
        ensures
            text@ == toml_text(self@),
    {
        let mut items: Vec<String> = Vec::new();
        let mut i: usize = 0;
        while i < self.default_environment_variables.len()
            invariant
                i <= self.default_environment_variables@.len(),
                items@.len() == i,
                forall|j: int|
                    0 <= j < i ==> (#[trigger] items@[j])@ == quoted(
                        self.default_environment_variables@[j]@,
                    ),
            decreases self.default_environment_variables@.len() - i,
        {
            items.push(quote(self.default_environment_variables[i].as_str()));
            i = i + 1;
        }
        assert(texts(items@) =~= self@.default_environment_variables.map_values(
            |v: Seq<char>| quoted(v),
        ));
        let mut text = String::from_str("[");
        text.append(self.name.as_str());
        text.append("]\nversion = ");
        push_decimal(&mut text, self.version);
        text.append("\ndefault_uid = ");
        push_decimal(&mut text, self.default_uid);
        text.append("\n# flags: 0b");
        push_binary(&mut text, self.flags.bits());
        text.append("\n# ");
        text.append(self.flags.to_string().as_str());
        text.append("\ndistro_flags = 0b");
        push_binary(&mut text, self.flags.bits());
        text.append("\ndefault_environment_values = [");
        text.append(join(&items, ", ").as_str());
        text.append("]");
        text
    }
}

} // verus!
