//! A compiled module.
//!
//! The engine may keep internal references into the binary it loaded and into
//! every WASI string it was configured with, so a [`Module`] owns a copy of
//! the binary bytes and every configured string for its whole lifetime.  The
//! engine's load call itself is made by the embedder, which hands its outcome
//! to [`Module::from_buf`]; the opaque compiled handle stays with the
//! embedder.

use crate::helper::error_buf_to_string;
use crate::helper::no_nul_chars;
use crate::helper::printable_bytes;
use crate::helper::CStrBuf;
use crate::helper::DEFAULT_ERROR_BUF_SIZE;
use crate::RuntimeError;
use vstd::prelude::*;
use vstd::string::StringExecFns;
use vstd::utf8::decode_utf8;
use vstd::utf8::encode_utf8;
use vstd::utf8::valid_utf8;

verus! {

/// Pre-opened host paths and their guest mappings for WASI.
pub struct PreOpen {
    pub real_paths: Vec<CStrBuf>,
    pub mapped_paths: Vec<CStrBuf>,
}

/// WASI configuration kept alive for the engine, which stores only pointers
/// to these strings.
pub struct WASIArg {
    pub pre_open: PreOpen,
    pub allowed_address: Vec<CStrBuf>,
    pub allowed_dns: Vec<CStrBuf>,
    pub env: Vec<CStrBuf>,
}

/// Every kept buffer in the list is a well-formed C string.
pub open spec fn all_cstr_wf(kept: Seq<CStrBuf>) -> bool {
    forall|i: int| 0 <= i < kept.len() ==> (#[trigger] kept[i]).wf()
}

/// The kept buffers hold exactly the encodings of the given texts, in order.
pub open spec fn keeps_texts(kept: Seq<CStrBuf>, texts: Seq<String>) -> bool {
    &&& kept.len() == texts.len()
    &&& forall|i: int| 0 <= i < kept.len() ==> (#[trigger] kept[i])@ == encode_utf8(texts[i]@)
}

/// The text carried by an error built from an engine error buffer: the
/// decoded buffer text where the buffer holds any, else the given fixed
/// message.
pub open spec fn reported_text(buf: Seq<i8>, fallback: Seq<char>, text: Seq<char>) -> bool {
    if printable_bytes(buf).len() == 0 {
        text == fallback
    } else {
        &&& text.len() > 0
        &&& valid_utf8(printable_bytes(buf)) ==> text == decode_utf8(printable_bytes(buf))
    }
}

/// Build the error text for a failed engine call from its error buffer,
/// standing in the given fixed message when the buffer holds no text.
pub(crate) fn error_text_or(error_buf: &[i8; DEFAULT_ERROR_BUF_SIZE], fallback: &str) -> (r: String)
    requires
        fallback@.len() > 0,
    ensures
        r@.len() > 0,
        reported_text(error_buf@, fallback@, r@),
{
    let text = error_buf_to_string(error_buf);
    if text.as_str().is_empty() {
        String::from_str(fallback)
    } else {
        text
    }
}

/// A compiled module: the binary bytes the engine may reference, owned for
/// the module's lifetime, and the WASI strings configured so far.
pub struct Module {
    pub content: Vec<u8>,
    pub wasi_arg: WASIArg,
}

impl Module {
    /// No WASI strings configured yet.
    pub open spec fn wasi_unset(&self) -> bool {
        &&& self.wasi_arg.pre_open.real_paths@.len() == 0
        &&& self.wasi_arg.pre_open.mapped_paths@.len() == 0
        &&& self.wasi_arg.allowed_address@.len() == 0
        &&& self.wasi_arg.allowed_dns@.len() == 0
        &&& self.wasi_arg.env@.len() == 0
    }

    /// Outcome of the engine's load call on an in-memory binary: on success a
    /// module owning a copy of the binary, else `CompilationError` carrying
    /// the decoded error-buffer text — never empty, a fixed message stands in
    /// when the buffer holds none.
    pub fn from_buf(
        buf: &Vec<u8>,
        load_succeeded: bool,
        error_buf: &[i8; DEFAULT_ERROR_BUF_SIZE],
    ) -> (r: Result<Module, RuntimeError>)
        ensures
            load_succeeded ==> {
                &&& r matches Ok(m)
                &&& m.content@ == buf@
                &&& m.wasi_unset()
            },
            !load_succeeded ==> {
                &&& r matches Err(e)
                &&& e matches RuntimeError::CompilationError(text)
                &&& text@.len() > 0
                &&& reported_text(error_buf@, "load module failed"@, text@)
            },
    {
        if !load_succeeded {
            proof {
                reveal_strlit("load module failed");
            }
            return Err(
                RuntimeError::CompilationError(error_text_or(error_buf, "load module failed")),
            );
        }
        let mut content: Vec<u8> = Vec::new();
        content.extend_from_slice(buf.as_slice());
        Ok(
            Module {
                content,
                wasi_arg: WASIArg {
                    pre_open: PreOpen { real_paths: Vec::new(), mapped_paths: Vec::new() },
                    allowed_address: Vec::new(),
                    allowed_dns: Vec::new(),
                    env: Vec::new(),
                },
            },
        )
    }

    /// Set the pre-open paths of the WASI configuration: each host path and
    /// each guest mapping is kept alive as a null-terminated string for the
    /// engine.  Must be called before instantiation.
    pub fn set_wasi_arg_pre_open_path(
        &mut self,
        real_paths: Vec<String>,
        mapped_paths: Vec<String>,
    )
        requires
            forall|i: int|
                0 <= i < real_paths@.len() ==> no_nul_chars(#[trigger] real_paths@[i]@),
            forall|i: int|
                0 <= i < mapped_paths@.len() ==> no_nul_chars(#[trigger] mapped_paths@[i]@),
        ensures
            final(self).content == old(self).content,
            final(self).wasi_arg.allowed_address == old(self).wasi_arg.allowed_address,
            final(self).wasi_arg.allowed_dns == old(self).wasi_arg.allowed_dns,
            final(self).wasi_arg.env == old(self).wasi_arg.env,
            all_cstr_wf(final(self).wasi_arg.pre_open.real_paths@),
            keeps_texts(final(self).wasi_arg.pre_open.real_paths@, real_paths@),
            all_cstr_wf(final(self).wasi_arg.pre_open.mapped_paths@),
            keeps_texts(final(self).wasi_arg.pre_open.mapped_paths@, mapped_paths@),
    {
        self.wasi_arg.pre_open.real_paths = to_cstr_vec(real_paths);
        self.wasi_arg.pre_open.mapped_paths = to_cstr_vec(mapped_paths);
    }

    /// Set the environment variables of the WASI configuration, kept alive as
    /// null-terminated strings for the engine.  Must be called before
    /// instantiation.
    pub fn set_wasi_arg_env_vars(&mut self, envs: Vec<String>)
        requires
            forall|i: int| 0 <= i < envs@.len() ==> no_nul_chars(#[trigger] envs@[i]@),
        ensures
            final(self).content == old(self).content,
            final(self).wasi_arg.pre_open == old(self).wasi_arg.pre_open,
            final(self).wasi_arg.allowed_address == old(self).wasi_arg.allowed_address,
            final(self).wasi_arg.allowed_dns == old(self).wasi_arg.allowed_dns,
            all_cstr_wf(final(self).wasi_arg.env@),
            keeps_texts(final(self).wasi_arg.env@, envs@),
    {
        self.wasi_arg.env = to_cstr_vec(envs);
    }

    /// Set the allowed DNS names of the WASI configuration, kept alive as
    /// null-terminated strings for the engine.  Must be called before
    /// instantiation.
    pub fn set_wasi_arg_allowed_dns(&mut self, dns: Vec<String>)
        requires
            forall|i: int| 0 <= i < dns@.len() ==> no_nul_chars(#[trigger] dns@[i]@),
        ensures
            final(self).content == old(self).content,
            final(self).wasi_arg.pre_open == old(self).wasi_arg.pre_open,
            final(self).wasi_arg.allowed_address == old(self).wasi_arg.allowed_address,
            final(self).wasi_arg.env == old(self).wasi_arg.env,
            all_cstr_wf(final(self).wasi_arg.allowed_dns@),
            keeps_texts(final(self).wasi_arg.allowed_dns@, dns@),
    {
        self.wasi_arg.allowed_dns = to_cstr_vec(dns);
    }

    /// Set the allowed socket addresses of the WASI configuration, kept alive
    /// as null-terminated strings for the engine.  Must be called before
    /// instantiation.
    pub fn set_wasi_arg_allowed_address(&mut self, addresses: Vec<String>)
        requires
            forall|i: int| 0 <= i < addresses@.len() ==> no_nul_chars(#[trigger] addresses@[i]@),
        ensures
            final(self).content == old(self).content,
            final(self).wasi_arg.pre_open == old(self).wasi_arg.pre_open,
            final(self).wasi_arg.allowed_dns == old(self).wasi_arg.allowed_dns,
            final(self).wasi_arg.env == old(self).wasi_arg.env,
            all_cstr_wf(final(self).wasi_arg.allowed_address@),
            keeps_texts(final(self).wasi_arg.allowed_address@, addresses@),
    {
        self.wasi_arg.allowed_address = to_cstr_vec(addresses);
    }
}

/// Convert texts into owned null-terminated buffers, to be kept alive for the
/// engine.
fn to_cstr_vec(items: Vec<String>) -> (r: Vec<CStrBuf>)
    requires
        forall|i: int| 0 <= i < items@.len() ==> no_nul_chars(#[trigger] items@[i]@),
    ensures
        all_cstr_wf(r@),
        keeps_texts(r@, items@),
{
    let mut r: Vec<CStrBuf> = Vec::new();
    let mut i: usize = 0;
    while i < items.len()
        invariant
            i <= items@.len(),
            forall|j: int| 0 <= j < items@.len() ==> no_nul_chars(#[trigger] items@[j]@),
            r@.len() == i,
            all_cstr_wf(r@),
            forall|j: int| 0 <= j < i ==> (#[trigger] r@[j])@ == encode_utf8(items@[j]@),
        decreases items@.len() - i,
    {
        r.push(CStrBuf::new(items[i].as_str()));
        i = i + 1;
    }
    r
}

} // verus!
