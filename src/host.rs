//! Building the hosting context: the runtime configuration file of the
//! payload initializes the runtime, and the payload's assembly gets a loader
//! through which entry points are resolved.

use vstd::prelude::*;
use vstd::string::StringSliceAdditionalSpecFns;
use vstd::utf8::{encode_scalar, encode_utf8};

use std::str::FromStr;

use netcorehost::error::HostingError;
use netcorehost::hostfxr::{AssemblyDelegateLoader, Hostfxr, HostfxrContext, InitializedForRuntimeConfig};
use netcorehost::pdcstring::PdCString;

use crate::error::BridgeError;
use crate::layout::{
    assembly_path, assembly_path_spec, joined, payload_dir_spec, runtime_config_path,
    runtime_config_path_spec, ASSEMBLY_EXT, PAYLOAD_BASE, PAYLOAD_DIR, RUNTIME_CONFIG_EXT,
};

verus! {

#[verifier::external_type_specification]
#[verifier::external_body]
pub struct ExHostfxr(Hostfxr);

#[verifier::external_type_specification]
#[verifier::external_body]
#[verifier::reject_recursive_types(I)]
pub struct ExHostfxrContext<I>(HostfxrContext<I>);

#[verifier::external_type_specification]
#[verifier::external_body]
pub struct ExInitializedForRuntimeConfig(InitializedForRuntimeConfig);

#[verifier::external_type_specification]
#[verifier::external_body]
pub struct ExAssemblyDelegateLoader(AssemblyDelegateLoader);

#[verifier::external_type_specification]
#[verifier::external_body]
pub struct ExHostingError(HostingError);

/// True when the UTF-8 form of a path holds a NUL byte, which no path handed
/// to the hosting layer may hold.
pub open spec fn holds_nul(path: Seq<char>) -> bool {
    encode_utf8(path).contains(0u8)
}

/// True when one of the payload paths next to `exe_dir` holds a NUL byte.
pub open spec fn payload_paths_hold_nul(exe_dir: Seq<char>) -> bool {
    holds_nul(runtime_config_path_spec(exe_dir)) || holds_nul(assembly_path_spec(exe_dir))
}

/// Only the NUL character encodes to a sequence holding a zero byte.
proof fn lemma_scalar_nul(c: char)
    ensures
        encode_scalar(c as u32).contains(0u8) <==> c == '\0',
{
    let v = c as u32;
    let e = encode_scalar(v);
    assert(forall|x: u32| #![auto] (0x80u8 | (x & 0x3F) as u8) != 0u8) by (bit_vector);
    assert(forall|x: u32| #![auto] (0x80u8 | ((x >> 6) & 0x3F) as u8) != 0u8) by (bit_vector);
    assert(forall|x: u32| #![auto] (0x80u8 | ((x >> 12) & 0x3F) as u8) != 0u8) by (bit_vector);
    assert(forall|x: u32| #![auto] (0xC0u8 | ((x >> 6) & 0x1F) as u8) != 0u8) by (bit_vector);
    assert(forall|x: u32| #![auto] (0xE0u8 | ((x >> 12) & 0x0F) as u8) != 0u8) by (bit_vector);
    assert(forall|x: u32| #![auto] (0xF0u8 | ((x >> 18) & 0x7) as u8) != 0u8) by (bit_vector);
    assert(forall|x: u32| x <= 0x7F ==> (((x & 0x7F) as u8 == 0u8) <==> x == 0)) by (bit_vector);
    if e.contains(0u8) {
        let i = choose|i: int| 0 <= i < e.len() && e[i] == 0u8;
        assert(v == 0);
    }
    if c == '\0' {
        assert(e[0] == 0u8);
    }
}

proof fn lemma_holds_nul_iff_nul_char(s: Seq<char>)
    ensures
        holds_nul(s) <==> s.contains('\0'),
    decreases s.len(),
{
    if s.len() > 0 {
        let head = encode_scalar(s[0] as u32);
        let rest = s.drop_first();
        lemma_holds_nul_iff_nul_char(rest);
        lemma_scalar_nul(s[0]);
        let e = encode_utf8(s);
        assert(e =~= head + encode_utf8(rest));
        if e.contains(0u8) {
            let i = choose|i: int| 0 <= i < e.len() && e[i] == 0u8;
            if i < head.len() {
                assert(head[i] == 0u8);
                assert(s[0] == '\0');
            } else {
                assert(encode_utf8(rest)[i - head.len()] == 0u8);
                let j = choose|j: int| 0 <= j < rest.len() && rest[j] == '\0';
                assert(s[j + 1] == '\0');
            }
        }
        if s.contains('\0') {
            let j = choose|j: int| 0 <= j < s.len() && s[j] == '\0';
            if j == 0 {
                let i = choose|i: int| 0 <= i < head.len() && head[i] == 0u8;
                assert(e[i] == 0u8);
            } else {
                assert(rest[j - 1] == '\0');
                let t = encode_utf8(rest);
                let i = choose|i: int| 0 <= i < t.len() && t[i] == 0u8;
                assert(e[i + head.len()] == 0u8);
            }
        }
    }
}

proof fn lemma_concat_holds_nul(a: Seq<char>, b: Seq<char>)
    ensures
        (a + b).contains('\0') <==> a.contains('\0') || b.contains('\0'),
{
    let ab = a + b;
    if ab.contains('\0') {
        let j = choose|j: int| 0 <= j < ab.len() && ab[j] == '\0';
        if j < a.len() {
            assert(a[j] == '\0');
        } else {
            assert(b[j - a.len()] == '\0');
        }
    }
    if a.contains('\0') {
        let j = choose|j: int| 0 <= j < a.len() && a[j] == '\0';
        assert(ab[j] == '\0');
    }
    if b.contains('\0') {
        let j = choose|j: int| 0 <= j < b.len() && b[j] == '\0';
        assert(ab[j + a.len()] == '\0');
    }
}

proof fn lemma_joined_nul(dir: Seq<char>, name: Seq<char>)
    requires
        !name.contains('\0'),
    ensures
        joined(dir, name).contains('\0') <==> dir.contains('\0'),
{
    lemma_concat_holds_nul(dir, name);
    lemma_concat_holds_nul(dir, seq!['/']);
    lemma_concat_holds_nul(dir + seq!['/'], name);
    if seq!['/'].contains('\0') {
        let j = choose|j: int| 0 <= j < 1 && seq!['/'][j] == '\0';
    }
}

/// A payload path holds a NUL byte exactly when the executable's directory
/// holds a NUL character.
pub proof fn lemma_payload_paths_nul(exe_dir: Seq<char>)
    ensures
        payload_paths_hold_nul(exe_dir) <==> exe_dir.contains('\0'),
{
    reveal_strlit("dotnet");
    reveal_strlit("TauriDotNetBridge");
    reveal_strlit(".runtimeconfig.json");
    reveal_strlit(".dll");
    let config_name = PAYLOAD_BASE@ + RUNTIME_CONFIG_EXT@;
    let assembly_name = PAYLOAD_BASE@ + ASSEMBLY_EXT@;
    assert(!PAYLOAD_DIR@.contains('\0'));
    assert(!config_name.contains('\0'));
    assert(!assembly_name.contains('\0'));
    lemma_joined_nul(exe_dir, PAYLOAD_DIR@);
    lemma_joined_nul(payload_dir_spec(exe_dir), config_name);
    lemma_joined_nul(payload_dir_spec(exe_dir), assembly_name);
    lemma_holds_nul_iff_nul_char(runtime_config_path_spec(exe_dir));
    lemma_holds_nul_iff_nul_char(assembly_path_spec(exe_dir));
}

/// Relies on `Hostfxr::initialize_for_runtime_config`, with the path made a
/// `PdCString` by `PdCString::from_str`, which fails only on a NUL byte.
#[verifier::external_body]
fn initialize_for_config(hostfxr: &Hostfxr, path: &str) -> (r: Result<
    HostfxrContext<InitializedForRuntimeConfig>,
    HostingError,
>)
    requires
        !holds_nul(path@),
{
    hostfxr.initialize_for_runtime_config(PdCString::from_str(path).unwrap())
}

/// Relies on `HostfxrContext::get_delegate_loader_for_assembly`, with the
/// path made a `PdCString` by `PdCString::from_str`, which fails only on a
/// NUL byte.
#[verifier::external_body]
fn loader_for_assembly(
    context: &HostfxrContext<InitializedForRuntimeConfig>,
    path: &str,
) -> (r: Result<AssemblyDelegateLoader, HostingError>)
    requires
        !holds_nul(path@),
{
    context.get_delegate_loader_for_assembly(PdCString::from_str(path).unwrap())
}

/// Whether the UTF-8 form of `path` holds a NUL byte.
pub fn has_nul(path: &str) -> (r: bool)
    ensures
        r == holds_nul(path@),
{
    let bytes = path.as_bytes();
    let mut i: usize = 0;
    while i < bytes.len()
        invariant
            bytes@ == encode_utf8(path@),
            i <= bytes@.len(),
            forall|k: int| 0 <= k < i ==> bytes@[k] != 0u8,
        decreases bytes@.len() - i,
    {
        if bytes[i] == 0u8 {
            assert(bytes@[i as int] == 0u8);
            return true;
        }
        i = i + 1;
    }
    assert(!bytes@.contains(0u8));
    false
}

/// Builds the hosting context for the payload next to the executable in
/// `exe_dir` and returns the loader of its assembly. A directory holding a
/// NUL character gives `InvalidPath`, before any hosting call, since no path
/// built on it can be handed to the hosting layer;
/// otherwise a configuration the runtime rejects gives
/// `InvalidConfiguration`, and a context that yields no loader gives
/// `AssemblyLoadFailure`.
pub fn open_bridge(hostfxr: &Hostfxr, exe_dir: &str) -> (r: Result<AssemblyDelegateLoader, BridgeError>)
    ensures
        exe_dir@.contains('\0') <==> r == Err::<AssemblyDelegateLoader, BridgeError>(
            BridgeError::InvalidPath,
        ),
        r matches Err(e) ==> e == BridgeError::InvalidPath || e == BridgeError::InvalidConfiguration
            || e == BridgeError::AssemblyLoadFailure,
{
    let config = runtime_config_path(exe_dir);
    let assembly = assembly_path(exe_dir);
    proof {
        lemma_payload_paths_nul(exe_dir@);
    }
    if has_nul(config.as_str()) || has_nul(assembly.as_str()) {
        return Err(BridgeError::InvalidPath);
    }
    let context = match initialize_for_config(hostfxr, config.as_str()) {
        Ok(c) => c,
        Err(_) => {
            return Err(BridgeError::InvalidConfiguration);
        },
    };
    match loader_for_assembly(&context, assembly.as_str()) {
        Ok(loader) => Ok(loader),
        Err(_) => Err(BridgeError::AssemblyLoadFailure),
    }
}

} // verus!
