//! The specification of a sandbox on its way to the callers.
use vstd::prelude::*;

use crate::sandbox::{SandboxSpec, SandboxSpecView};
use crate::text::fails_with;

verus! {

/// The type of an OCI specification, as its callers know it.
pub const OCI_SPEC_TYPE_URL: &'static str = "types.containerd.io/opencontainers/runtime-spec/1/Spec";

/// An OCI specification, as `oci_spec` has it.
#[verifier::external_type_specification]
#[verifier::external_body]
pub struct ExSpec(oci_spec::runtime::Spec);

/// Whether bytes are framed as a JSON object is: in braces.
pub open spec fn in_braces(json: Seq<u8>) -> bool {
    json.len() >= 2 && json[0] == 0x7b && json.last() == 0x7d
}

/// Calls `serde_json::to_vec` on an OCI specification. A specification is a
/// struct, which is written as one JSON object: the bytes stand in braces. It
/// holds hash maps, whose entries come in no fixed order, so nothing is claimed
/// of the bytes between them; an error comes as its text.
#[verifier::external_body]
fn spec_json(spec: &oci_spec::runtime::Spec) -> (r: Result<Vec<u8>, String>)
    ensures
        r matches Ok(json) ==> in_braces(json@),
{
    serde_json::to_vec(spec).map_err(|error| error.to_string())
}

/// What a specification is sent as, by what came of writing it down.
pub open spec fn encoded(json: Result<Vec<u8>, String>) -> Result<SandboxSpecView, Seq<char>> {
    match json {
        Ok(value) => Ok(SandboxSpecView { type_url: OCI_SPEC_TYPE_URL@, value: value@ }),
        Err(error) => Err("serialize OCI sandbox spec failed: "@ + error@),
    }
}

/// Labels a specification that was written down as JSON.
pub fn label_spec(json: Result<Vec<u8>, String>) -> (r: Result<SandboxSpec, String>)
    ensures
        match encoded(json) {
            Ok(spec) => r matches Ok(s) && s@ == spec,
            Err(message) => fails_with(r, message),
        },
{
    match json {
        Ok(value) => Ok(SandboxSpec { type_url: OCI_SPEC_TYPE_URL.to_owned(), value }),
        Err(error) => Err(
            "serialize OCI sandbox spec failed: ".to_owned().concat(error.as_str()),
        ),
    }
}

/// Writes a specification down as JSON and labels it. The bytes are those of
/// the JSON writer: one object, in whatever order it takes the entries of hash
/// maps.
pub fn encode_sandbox_spec(spec: &oci_spec::runtime::Spec) -> (r: Result<SandboxSpec, String>)
    ensures
        r matches Ok(s) ==> in_braces(s@.value),
        exists|json: Result<Vec<u8>, String>|
            match #[trigger] encoded(json) {
                Ok(spec) => r matches Ok(s) && s@ == spec,
                Err(message) => fails_with(r, message),
            },
{
    let json = spec_json(spec);
    label_spec(json)
}

/// A specification is handed out unchanged, under the type of the runtime's
/// specifications; one that cannot be written is an error.
pub proof fn law_specifications_are_handed_out_unchanged(json: Vec<u8>, error: String)
    ensures
        encoded(Ok(json)) is Ok,
        encoded(Ok(json))->Ok_0.value == json@,
        encoded(Ok(json))->Ok_0.type_url
            == "types.containerd.io/opencontainers/runtime-spec/1/Spec"@,
        encoded(Err(error)) == Err::<SandboxSpecView, Seq<char>>(
            "serialize OCI sandbox spec failed: "@ + error@,
        ),
{
}

} // verus!
