//! The `-o` arguments of `create`.
use vstd::prelude::*;
use crate::formats::lemma_format_names_differ;
use crate::measure_options::name_text;
use crate::options::{
    all_pieces, bad_value, bad_value_message, bool_option, compat_level, is_preallocation,
    key_value, lemma_keys_differ, lemma_modes_differ, lemma_subformats_differ, missing_value,
    option_pieces, parse_create_o_bool, parse_create_o_size_u32, parse_create_o_size_u64,
    parse_create_o_u8, read_compat, read_preallocation, read_vhd_subformat, read_vmdk_subformat,
    split_piece, switch, texts, u32_option, u64_option, u8_option, vhd_subformat_code,
    vmdk_subformat_code,
};
use crate::size::memory_size;
use crate::text::{between, has_prefix, name_of, parsed, same, starts_with};

verus! {

/// The options that `-o` set, each `None` where it did not.
#[derive(Debug)]
pub struct CreateOptionOverrides {
    pub cluster_size: Option<u32>,
    pub refcount_bits: Option<u8>,
    pub extended_l2: Option<bool>,
    pub lazy_refcounts: Option<bool>,
    pub compat_v3: Option<bool>,
    pub vmdk_subformat: Option<u8>,
    pub grain_size: Option<u32>,
    pub vhd_subformat: Option<u8>,
    pub block_size: Option<u32>,
    pub preallocation: Option<&'static str>,
    pub size: Option<u64>,
    pub backing_file: Option<String>,
    pub backing_fmt: Option<&'static str>,
}

/// The options that `-o` set, with names and paths as texts.
pub struct CreateOverrides {
    pub cluster_size: Option<u32>,
    pub refcount_bits: Option<u8>,
    pub extended_l2: Option<bool>,
    pub lazy_refcounts: Option<bool>,
    pub compat_v3: Option<bool>,
    pub vmdk_subformat: Option<u8>,
    pub grain_size: Option<u32>,
    pub vhd_subformat: Option<u8>,
    pub block_size: Option<u32>,
    pub preallocation: Option<Seq<char>>,
    pub size: Option<u64>,
    pub backing_file: Option<Seq<char>>,
    pub backing_fmt: Option<Seq<char>>,
}

impl View for CreateOptionOverrides {
    type V = CreateOverrides;

    open spec fn view(&self) -> CreateOverrides {
        CreateOverrides {
            cluster_size: self.cluster_size,
            refcount_bits: self.refcount_bits,
            extended_l2: self.extended_l2,
            lazy_refcounts: self.lazy_refcounts,
            compat_v3: self.compat_v3,
            vmdk_subformat: self.vmdk_subformat,
            grain_size: self.grain_size,
            vhd_subformat: self.vhd_subformat,
            block_size: self.block_size,
            preallocation: name_text(self.preallocation),
            size: self.size,
            backing_file: name_of(self.backing_file),
            backing_fmt: name_text(self.backing_fmt),
        }
    }
}

/// No option set.
pub open spec fn no_create_overrides() -> CreateOverrides {
    CreateOverrides {
        cluster_size: None,
        refcount_bits: None,
        extended_l2: None,
        lazy_refcounts: None,
        compat_v3: None,
        vmdk_subformat: None,
        grain_size: None,
        vhd_subformat: None,
        block_size: None,
        preallocation: None,
        size: None,
        backing_file: None,
        backing_fmt: None,
    }
}

impl Default for CreateOptionOverrides {
    fn default() -> (r: Self)
        ensures
            r@ == no_create_overrides(),
    {
        CreateOptionOverrides {
            cluster_size: None,
            refcount_bits: None,
            extended_l2: None,
            lazy_refcounts: None,
            compat_v3: None,
            vmdk_subformat: None,
            grain_size: None,
            vhd_subformat: None,
            block_size: None,
            preallocation: None,
            size: None,
            backing_file: None,
            backing_fmt: None,
        }
    }
}

/// The complaint about a key that the target does not know.
pub open spec fn unrecognised(key: Seq<char>, target: Seq<char>) -> Seq<char> {
    "create: unrecognised -o key '"@ + key + "' for target "@ + target
        + " (run with --help for the accepted flag set; qemu-img -o keys map 1:1 to the --flag form)"@
}

/// Whether a target has backing files.
pub open spec fn takes_backing(target: Seq<char>) -> bool {
    target == "qcow2"@ || target == "vmdk"@ || target == "vpc"@ || target == "vhdx"@
}

/// The canonical name of a backing format.
pub open spec fn backing_format_name(value: Seq<char>) -> Option<Seq<char>> {
    if value == "raw"@ || value == "qcow2"@ || value == "vmdk"@ || value == "vpc"@ || value
        == "vhdx"@ {
        Some(value)
    } else if value == "vhd"@ {
        Some("vpc"@)
    } else {
        None
    }
}

/// What the key `preallocation` does for a target other than raw and qcow2.
pub open spec fn create_deferred_preallocation(
    target: Seq<char>,
    o: CreateOverrides,
    value: Seq<char>,
) -> Result<CreateOverrides, Seq<char>> {
    if value == "off"@ {
        Ok(CreateOverrides { preallocation: Some(value), ..o })
    } else if is_preallocation(value) {
        Err(
            "create: -o preallocation="@ + value + " is not yet supported for "@ + target
                + " (non-qcow2 preallocation is future work — see PLAN-create.md)"@,
        )
    } else {
        Err(
            bad_value(
                "create"@,
                value,
                "preallocation"@,
                " (expected off, metadata, falloc, or full)"@,
            ),
        )
    }
}

/// What a key of a raw target does.
pub open spec fn create_raw(o: CreateOverrides, key: Seq<char>, value: Seq<char>) -> Result<
    CreateOverrides,
    Seq<char>,
> {
    if key == "preallocation"@ {
        if value == "off"@ || value == "falloc"@ || value == "full"@ {
            Ok(CreateOverrides { preallocation: Some(value), ..o })
        } else if value == "metadata"@ {
            Err(
                "create: -o preallocation=metadata is not valid for raw (raw has no metadata to preallocate)"@,
            )
        } else {
            Err(
                bad_value(
                    "create"@,
                    value,
                    "preallocation"@,
                    " (expected off, falloc, or full)"@,
                ),
            )
        }
    } else {
        Err(unrecognised(key, "raw"@))
    }
}

/// What a key of a qcow2 target does.
pub open spec fn create_qcow2(o: CreateOverrides, key: Seq<char>, value: Seq<char>) -> Result<
    CreateOverrides,
    Seq<char>,
> {
    if key == "cluster_size"@ {
        match u32_option("create"@, key, value) {
            Ok(n) => Ok(CreateOverrides { cluster_size: Some(n), ..o }),
            Err(e) => Err(e),
        }
    } else if key == "compat"@ {
        match compat_level(value) {
            Some(v3) => Ok(CreateOverrides { compat_v3: Some(v3), ..o }),
            None => Err(bad_value("create"@, value, "compat"@, " (expected 0.10 or 1.1)"@)),
        }
    } else if key == "refcount_bits"@ {
        match u8_option("create"@, key, value) {
            Ok(n) => Ok(CreateOverrides { refcount_bits: Some(n), ..o }),
            Err(e) => Err(e),
        }
    } else if key == "extended_l2"@ {
        match bool_option("create"@, key, value) {
            Ok(b) => Ok(CreateOverrides { extended_l2: Some(b), ..o }),
            Err(e) => Err(e),
        }
    } else if key == "lazy_refcounts"@ {
        match bool_option("create"@, key, value) {
            Ok(b) => Ok(CreateOverrides { lazy_refcounts: Some(b), ..o }),
            Err(e) => Err(e),
        }
    } else if key == "compression_type"@ {
        if value == "zlib"@ || value == "zstd"@ {
            Ok(o)
        } else {
            Err(bad_value("create"@, value, "compression_type"@, " (expected zlib or zstd)"@))
        }
    } else if key == "preallocation"@ {
        if is_preallocation(value) {
            Ok(CreateOverrides { preallocation: Some(value), ..o })
        } else {
            Err(
                bad_value(
                    "create"@,
                    value,
                    "preallocation"@,
                    " (expected off, metadata, falloc, or full)"@,
                ),
            )
        }
    } else if key == "data_file"@ || key == "data_file_raw"@ {
        Err(
            "create: -o key '"@ + key
                + "' is not yet supported (external data files are deferred — see PLAN-convert-followups.md and PLAN-create.md future work)"@,
        )
    } else if has_prefix(key, "encrypt."@) {
        Err(
            "create: -o key '"@ + key
                + "' is not yet supported (encrypted create is deferred — see PLAN-create.md future work)"@,
        )
    } else {
        Err(unrecognised(key, "qcow2"@))
    }
}

/// What a key of a VMDK target does.
pub open spec fn create_vmdk(o: CreateOverrides, key: Seq<char>, value: Seq<char>) -> Result<
    CreateOverrides,
    Seq<char>,
> {
    if key == "subformat"@ {
        match vmdk_subformat_code(value) {
            Some(n) => Ok(CreateOverrides { vmdk_subformat: Some(n), ..o }),
            None => Err(
                bad_value(
                    "create"@,
                    value,
                    "subformat"@,
                    " (expected monolithicSparse / streamOptimized / monolithicFlat)"@,
                ),
            ),
        }
    } else if key == "grain_size"@ {
        match u32_option("create"@, key, value) {
            Ok(n) => Ok(CreateOverrides { grain_size: Some(n), ..o }),
            Err(e) => Err(e),
        }
    } else if key == "adapter_type"@ || key == "hwversion"@ || key == "toolsversion"@ || key
        == "zeroed_grain"@ {
        Ok(o)
    } else if key == "preallocation"@ {
        create_deferred_preallocation("vmdk"@, o, value)
    } else {
        Err(unrecognised(key, "vmdk"@))
    }
}

/// What a key of a VHD target does.
pub open spec fn create_vpc(o: CreateOverrides, key: Seq<char>, value: Seq<char>) -> Result<
    CreateOverrides,
    Seq<char>,
> {
    if key == "subformat"@ {
        match vhd_subformat_code(value) {
            Some(n) => Ok(CreateOverrides { vhd_subformat: Some(n), ..o }),
            None => Err(
                bad_value("create"@, value, "subformat"@, " (expected dynamic or fixed)"@),
            ),
        }
    } else if key == "block_size"@ {
        match u32_option("create"@, key, value) {
            Ok(n) => Ok(CreateOverrides { block_size: Some(n), ..o }),
            Err(e) => Err(e),
        }
    } else if key == "force_size"@ || key == "force_size_calc"@ {
        Ok(o)
    } else if key == "preallocation"@ {
        create_deferred_preallocation("vpc"@, o, value)
    } else {
        Err(unrecognised(key, "vpc"@))
    }
}

/// What a key of a VHDX target does.
pub open spec fn create_vhdx(o: CreateOverrides, key: Seq<char>, value: Seq<char>) -> Result<
    CreateOverrides,
    Seq<char>,
> {
    if key == "subformat"@ {
        match vhd_subformat_code(value) {
            Some(0) => Ok(o),
            Some(_) => Err(
                "create: -O vhdx -o subformat=fixed is not yet supported (vhdx-fixed lands in phase 5 of PLAN-create.md)"@,
            ),
            None => Err(
                bad_value("create"@, value, "subformat"@, " (expected dynamic or fixed)"@),
            ),
        }
    } else if key == "block_size"@ {
        match u32_option("create"@, key, value) {
            Ok(n) => Ok(CreateOverrides { block_size: Some(n), ..o }),
            Err(e) => Err(e),
        }
    } else if key == "log_size"@ || key == "block_state_zero"@ {
        Ok(o)
    } else if key == "preallocation"@ {
        create_deferred_preallocation("vhdx"@, o, value)
    } else {
        Err(unrecognised(key, "vhdx"@))
    }
}

/// What a key does: some are common to all targets, or to those with backing
/// files; the rest belong to one target.
pub open spec fn create_set(
    target: Seq<char>,
    o: CreateOverrides,
    key: Seq<char>,
    value: Seq<char>,
) -> Result<CreateOverrides, Seq<char>> {
    if key == "size"@ {
        match u64_option("create"@, key, value) {
            Ok(n) => Ok(CreateOverrides { size: Some(n), ..o }),
            Err(e) => Err(e),
        }
    } else if takes_backing(target) && key == "backing_file"@ {
        Ok(CreateOverrides { backing_file: Some(value), ..o })
    } else if takes_backing(target) && key == "backing_fmt"@ {
        match backing_format_name(value) {
            Some(name) => Ok(CreateOverrides { backing_fmt: Some(name), ..o }),
            None => Err(
                bad_value(
                    "create"@,
                    value,
                    "backing_fmt"@,
                    " (expected raw, qcow2, vmdk, vpc, or vhdx)"@,
                ),
            ),
        }
    } else if target == "raw"@ {
        create_raw(o, key, value)
    } else if target == "qcow2"@ {
        create_qcow2(o, key, value)
    } else if target == "vmdk"@ {
        create_vmdk(o, key, value)
    } else if target == "vpc"@ {
        create_vpc(o, key, value)
    } else if target == "vhdx"@ {
        create_vhdx(o, key, value)
    } else {
        Err(unrecognised(key, target))
    }
}

/// What one piece makes of the options so far.
pub open spec fn create_step(target: Seq<char>, o: CreateOverrides, piece: Seq<char>) -> Result<
    CreateOverrides,
    Seq<char>,
> {
    match key_value(piece) {
        None => Err(missing_value("create"@, piece)),
        Some((key, value)) => create_set(target, o, key, value),
    }
}

/// What a list of pieces sets, or the first complaint.
pub open spec fn create_fold(target: Seq<char>, ps: Seq<Seq<char>>) -> Result<
    CreateOverrides,
    Seq<char>,
>
    decreases ps.len(),
{
    if ps.len() == 0 {
        Ok(no_create_overrides())
    } else {
        match create_fold(target, ps.drop_last()) {
            Ok(o) => create_step(target, o, ps.last()),
            Err(e) => Err(e),
        }
    }
}

/// What the `-o` arguments of `create` set.
pub open spec fn create_options(target: Seq<char>, raw: Seq<String>) -> Result<
    CreateOverrides,
    Seq<char>,
> {
    create_fold(target, all_pieces(raw, raw.len() as int))
}

/// A result of this parser, with names and errors as texts.
pub open spec fn create_outcome(r: Result<CreateOptionOverrides, String>) -> Result<
    CreateOverrides,
    Seq<char>,
> {
    match r {
        Ok(o) => Ok(o@),
        Err(e) => Err(e@),
    }
}

fn unrecognised_message(key: &str, target: &str) -> (r: String)
    ensures
        r@ == unrecognised(key@, target@),
{
    let mut s = "create: unrecognised -o key '".to_owned();
    s.append(key);
    s.append("' for target ");
    s.append(target);
    s.append(
        " (run with --help for the accepted flag set; qemu-img -o keys map 1:1 to the --flag form)",
    );
    s
}

fn read_backing_format(value: &str) -> (r: Option<&'static str>)
    ensures
        name_text(r) == backing_format_name(value@),
{
    if same(value, "raw") {
        Some("raw")
    } else if same(value, "qcow2") {
        Some("qcow2")
    } else if same(value, "vmdk") {
        Some("vmdk")
    } else if same(value, "vpc") {
        Some("vpc")
    } else if same(value, "vhdx") {
        Some("vhdx")
    } else if same(value, "vhd") {
        Some("vpc")
    } else {
        None
    }
}

fn apply_deferred_preallocation(target: &str, o: CreateOptionOverrides, value: &str) -> (r: Result<
    CreateOptionOverrides,
    String,
>)
    ensures
        create_outcome(r) == create_deferred_preallocation(target@, o@, value@),
{
    let mut o = o;
    match read_preallocation(value) {
        Some(mode) => if same(value, "off") {
            o.preallocation = Some(mode);
            Ok(o)
        } else {
            let mut s = "create: -o preallocation=".to_owned();
            s.append(value);
            s.append(" is not yet supported for ");
            s.append(target);
            s.append(" (non-qcow2 preallocation is future work — see PLAN-create.md)");
            Err(s)
        },
        None => Err(
                bad_value_message(
                    "create",
                    value,
                    "preallocation",
                    " (expected off, metadata, falloc, or full)",
                ),
            ),
    }
}

fn apply_raw(o: CreateOptionOverrides, key: &str, value: &str) -> (r: Result<
    CreateOptionOverrides,
    String,
>)
    ensures
        create_outcome(r) == create_raw(o@, key@, value@),
{
    let mut o = o;
    if same(key, "preallocation") {
        if same(value, "off") {
            o.preallocation = Some("off");
            Ok(o)
        } else if same(value, "falloc") {
            o.preallocation = Some("falloc");
            Ok(o)
        } else if same(value, "full") {
            o.preallocation = Some("full");
            Ok(o)
        } else if same(value, "metadata") {
            Err(
                "create: -o preallocation=metadata is not valid for raw (raw has no metadata to preallocate)".to_owned(),
            )
        } else {
            Err(
                bad_value_message(
                    "create",
                    value,
                    "preallocation",
                    " (expected off, falloc, or full)",
                ),
            )
        }
    } else {
        Err(unrecognised_message(key, "raw"))
    }
}

fn apply_qcow2(o: CreateOptionOverrides, key: &str, value: &str) -> (r: Result<
    CreateOptionOverrides,
    String,
>)
    ensures
        create_outcome(r) == create_qcow2(o@, key@, value@),
{
    let mut o = o;
    if same(key, "cluster_size") {
        match parse_create_o_size_u32(key, value) {
            Ok(v) => {
                o.cluster_size = Some(v);
                Ok(o)
            },
            Err(e) => Err(e),
        }
    } else if same(key, "compat") {
        match read_compat(value) {
            Some(v) => {
                o.compat_v3 = Some(v);
                Ok(o)
            },
            None => Err(
                bad_value_message(
                    "create",
                    value,
                    "compat",
                    " (expected 0.10 or 1.1)",
                ),
            ),
        }
    } else if same(key, "refcount_bits") {
        match parse_create_o_u8(key, value) {
            Ok(v) => {
                o.refcount_bits = Some(v);
                Ok(o)
            },
            Err(e) => Err(e),
        }
    } else if same(key, "extended_l2") {
        match parse_create_o_bool(key, value) {
            Ok(v) => {
                o.extended_l2 = Some(v);
                Ok(o)
            },
            Err(e) => Err(e),
        }
    } else if same(key, "lazy_refcounts") {
        match parse_create_o_bool(key, value) {
            Ok(v) => {
                o.lazy_refcounts = Some(v);
                Ok(o)
            },
            Err(e) => Err(e),
        }
    } else if same(key, "compression_type") {
        if same(value, "zlib") || same(value, "zstd") {
            Ok(o)
        } else {
            Err(
                bad_value_message(
                    "create",
                    value,
                    "compression_type",
                    " (expected zlib or zstd)",
                ),
            )
        }
    } else if same(key, "preallocation") {
        match read_preallocation(value) {
            Some(v) => {
                o.preallocation = Some(v);
                Ok(o)
            },
            None => Err(
                bad_value_message(
                    "create",
                    value,
                    "preallocation",
                    " (expected off, metadata, falloc, or full)",
                ),
            ),
        }
    } else if same(key, "data_file") || same(key, "data_file_raw") {
        Err(
            between(
                "create: -o key '",
                key,
                "' is not yet supported (external data files are deferred — see PLAN-convert-followups.md and PLAN-create.md future work)",
            ),
        )
    } else if starts_with(key, "encrypt.") {
        Err(
            between(
                "create: -o key '",
                key,
                "' is not yet supported (encrypted create is deferred — see PLAN-create.md future work)",
            ),
        )
    } else {
        Err(unrecognised_message(key, "qcow2"))
    }
}

fn apply_vmdk(o: CreateOptionOverrides, key: &str, value: &str) -> (r: Result<
    CreateOptionOverrides,
    String,
>)
    ensures
        create_outcome(r) == create_vmdk(o@, key@, value@),
{
    let mut o = o;
    if same(key, "subformat") {
        match read_vmdk_subformat(value) {
            Some(v) => {
                o.vmdk_subformat = Some(v);
                Ok(o)
            },
            None => Err(
                bad_value_message(
                    "create",
                    value,
                    "subformat",
                    " (expected monolithicSparse / streamOptimized / monolithicFlat)",
                ),
            ),
        }
    } else if same(key, "grain_size") {
        match parse_create_o_size_u32(key, value) {
            Ok(v) => {
                o.grain_size = Some(v);
                Ok(o)
            },
            Err(e) => Err(e),
        }
    } else if same(key, "adapter_type") || same(key, "hwversion") || same(key, "toolsversion")
        || same(key, "zeroed_grain") {
        Ok(o)
    } else if same(key, "preallocation") {
        apply_deferred_preallocation("vmdk", o, value)
    } else {
        Err(unrecognised_message(key, "vmdk"))
    }
}

fn apply_vpc(o: CreateOptionOverrides, key: &str, value: &str) -> (r: Result<
    CreateOptionOverrides,
    String,
>)
    ensures
        create_outcome(r) == create_vpc(o@, key@, value@),
{
    let mut o = o;
    if same(key, "subformat") {
        match read_vhd_subformat(value) {
            Some(v) => {
                o.vhd_subformat = Some(v);
                Ok(o)
            },
            None => Err(
                bad_value_message(
                    "create",
                    value,
                    "subformat",
                    " (expected dynamic or fixed)",
                ),
            ),
        }
    } else if same(key, "block_size") {
        match parse_create_o_size_u32(key, value) {
            Ok(v) => {
                o.block_size = Some(v);
                Ok(o)
            },
            Err(e) => Err(e),
        }
    } else if same(key, "force_size") || same(key, "force_size_calc") {
        Ok(o)
    } else if same(key, "preallocation") {
        apply_deferred_preallocation("vpc", o, value)
    } else {
        Err(unrecognised_message(key, "vpc"))
    }
}

fn apply_vhdx(o: CreateOptionOverrides, key: &str, value: &str) -> (r: Result<
    CreateOptionOverrides,
    String,
>)
    ensures
        create_outcome(r) == create_vhdx(o@, key@, value@),
{
    let mut o = o;
    if same(key, "subformat") {
        match read_vhd_subformat(value) {
            Some(n) => if n == 0 {
                Ok(o)
            } else {
                Err(
                    "create: -O vhdx -o subformat=fixed is not yet supported (vhdx-fixed lands in phase 5 of PLAN-create.md)".to_owned(),
                )
            },
            None => Err(
                bad_value_message(
                    "create",
                    value,
                    "subformat",
                    " (expected dynamic or fixed)",
                ),
            ),
        }
    } else if same(key, "block_size") {
        match parse_create_o_size_u32(key, value) {
            Ok(v) => {
                o.block_size = Some(v);
                Ok(o)
            },
            Err(e) => Err(e),
        }
    } else if same(key, "log_size") || same(key, "block_state_zero") {
        Ok(o)
    } else if same(key, "preallocation") {
        apply_deferred_preallocation("vhdx", o, value)
    } else {
        Err(unrecognised_message(key, "vhdx"))
    }
}

fn apply_option(target: &str, o: CreateOptionOverrides, key: &str, value: &str) -> (r: Result<
    CreateOptionOverrides,
    String,
>)
    ensures
        create_outcome(r) == create_set(target@, o@, key@, value@),
{
    let mut o = o;
    let backing: bool = same(target, "qcow2") || same(target, "vmdk") || same(target, "vpc")
        || same(target, "vhdx");
    if same(key, "size") {
        match parse_create_o_size_u64(key, value) {
            Ok(v) => {
                o.size = Some(v);
                Ok(o)
            },
            Err(e) => Err(e),
        }
    } else if backing && same(key, "backing_file") {
        o.backing_file = Some(value.to_owned());
        Ok(o)
    } else if backing && same(key, "backing_fmt") {
        match read_backing_format(value) {
            Some(v) => {
                o.backing_fmt = Some(v);
                Ok(o)
            },
            None => Err(
                bad_value_message(
                    "create",
                    value,
                    "backing_fmt",
                    " (expected raw, qcow2, vmdk, vpc, or vhdx)",
                ),
            ),
        }
    } else if same(target, "raw") {
        apply_raw(o, key, value)
    } else if same(target, "qcow2") {
        apply_qcow2(o, key, value)
    } else if same(target, "vmdk") {
        apply_vmdk(o, key, value)
    } else if same(target, "vpc") {
        apply_vpc(o, key, value)
    } else if same(target, "vhdx") {
        apply_vhdx(o, key, value)
    } else {
        Err(unrecognised_message(key, target))
    }
}

fn apply_piece(target: &str, o: CreateOptionOverrides, piece: &str) -> (r: Result<
    CreateOptionOverrides,
    String,
>)
    ensures
        create_outcome(r) == create_step(target@, o@, piece@),
{
    match split_piece("create", piece) {
        Ok((key, value)) => apply_option(target, o, key.as_str(), value.as_str()),
        Err(e) => Err(e),
    }
}

proof fn lemma_create_fold_error(target: Seq<char>, ps: Seq<Seq<char>>, i: int)
    requires
        0 <= i <= ps.len(),
        create_fold(target, ps.take(i)) is Err,
    ensures
        create_fold(target, ps) == create_fold(target, ps.take(i)),
    decreases ps.len() - i,
{
    if i < ps.len() {
        assert(ps.take(i + 1).drop_last() =~= ps.take(i));
        lemma_create_fold_error(target, ps, i + 1);
    } else {
        assert(ps.take(i) =~= ps);
    }
}

/// Reads the `-o` arguments of `create` for a target format.
pub fn parse_create_o_options(target: &str, raw: &[String]) -> (r: Result<
    CreateOptionOverrides,
    String,
>)
    ensures
        create_outcome(r) == create_options(target@, raw@),
{
    let parts = option_pieces(raw);
    let ghost ps = texts(parts@);
    let mut o = CreateOptionOverrides::default();
    let mut i: usize = 0;
    assert(ps.take(0) =~= Seq::<Seq<char>>::empty());
    while i < parts.len()
        invariant
            i <= parts@.len(),
            ps == texts(parts@),
            ps == all_pieces(raw@, raw@.len() as int),
            create_fold(target@, ps.take(i as int)) == Ok::<CreateOverrides, Seq<char>>(o@),
        decreases parts.len() - i,
    {
        assert(ps.take(i + 1).drop_last() =~= ps.take(i as int));
        assert(ps.take(i + 1).last() == parts@[i as int]@);
        match apply_piece(target, o, parts[i].as_str()) {
            Ok(next) => {
                o = next;
            },
            Err(e) => {
                proof {
                    lemma_create_fold_error(target@, ps, i + 1);
                }
                return Err(e);
            },
        }
        i = i + 1;
    }
    assert(ps.take(i as int) =~= ps);
    Ok(o)
}

// ---------------------------------------------------------------------------
// Laws
// ---------------------------------------------------------------------------

/// Of two pieces with the same key, the later one wins: what the earlier one
/// set leaves no trace.
pub proof fn law_last_piece_wins(
    target: Seq<char>,
    o: CreateOverrides,
    key: Seq<char>,
    first: Seq<char>,
    second: Seq<char>,
)
    requires
        create_set(target, o, key, first) is Ok,
    ensures
        create_set(target, create_set(target, o, key, first)->Ok_0, key, second) == create_set(
            target,
            o,
            key,
            second,
        ),
{
}

/// An option changes by its own key alone, and only for a target that has it:
/// whatever else is given, every other option stays as it was.
pub proof fn law_option_changes_by_its_own_key(
    target: Seq<char>,
    o: CreateOverrides,
    key: Seq<char>,
    value: Seq<char>,
)
    requires
        create_set(target, o, key, value) is Ok,
    ensures
        ({
            let p = create_set(target, o, key, value)->Ok_0;
            &&& p.size != o.size ==> key == "size"@
            &&& p.backing_file != o.backing_file ==> key == "backing_file"@ && target != "raw"@
            &&& p.backing_fmt != o.backing_fmt ==> key == "backing_fmt"@ && target != "raw"@
            &&& p.cluster_size != o.cluster_size ==> key == "cluster_size"@ && target == "qcow2"@
            &&& p.compat_v3 != o.compat_v3 ==> key == "compat"@ && target == "qcow2"@
            &&& p.refcount_bits != o.refcount_bits ==> key == "refcount_bits"@ && target
                == "qcow2"@
            &&& p.extended_l2 != o.extended_l2 ==> key == "extended_l2"@ && target == "qcow2"@
            &&& p.lazy_refcounts != o.lazy_refcounts ==> key == "lazy_refcounts"@ && target
                == "qcow2"@
            &&& p.preallocation != o.preallocation ==> key == "preallocation"@
            &&& p.vmdk_subformat != o.vmdk_subformat ==> key == "subformat"@ && target == "vmdk"@
            &&& p.grain_size != o.grain_size ==> key == "grain_size"@ && target == "vmdk"@
            &&& p.vhd_subformat != o.vhd_subformat ==> key == "subformat"@ && target == "vpc"@
            &&& p.block_size != o.block_size ==> key == "block_size"@ && (target == "vpc"@
                || target == "vhdx"@)
        }),
{
    lemma_format_names_differ();
}

/// A key sets its option to what its value stands for: sizes and numbers to
/// what they say, switches to on or off, names to themselves or their number.
pub proof fn law_key_sets_its_option(
    target: Seq<char>,
    o: CreateOverrides,
    key: Seq<char>,
    value: Seq<char>,
)
    ensures
        ({
            let r = create_set(target, o, key, value);
            let p = r->Ok_0;
            let size = memory_size(value);
            let small = size is Ok && size->Ok_0 <= u32::MAX;
            let backed = target == "qcow2"@ || target == "vmdk"@ || target == "vpc"@ || target
                == "vhdx"@;
            &&& key == "size"@ ==> (r is Ok <==> size is Ok) && (r is Ok ==> p.size == Some(
                size->Ok_0,
            ))
            &&& backed && key == "backing_file"@ ==> r is Ok && p.backing_file == Some(value)
            &&& backed && key == "backing_fmt"@ && r is Ok ==> p.backing_fmt == Some(
                if value == "vhd"@ {
                    "vpc"@
                } else {
                    value
                },
            )
            &&& target == "qcow2"@ && key == "cluster_size"@ ==> (r is Ok <==> small) && (r is Ok
                ==> p.cluster_size == Some(size->Ok_0 as u32))
            &&& target == "qcow2"@ && key == "compat"@ ==> (r is Ok <==> value == "1.1"@ || value
                == "0.10"@) && (r is Ok ==> p.compat_v3 == Some(value == "1.1"@))
            &&& target == "qcow2"@ && key == "refcount_bits"@ ==> (r is Ok <==> parsed(value, 255)
                is Some) && (r is Ok ==> p.refcount_bits == Some(parsed(value, 255)->0 as u8))
            &&& target == "qcow2"@ && key == "extended_l2"@ ==> (r is Ok <==> switch(value) is Some)
                && (r is Ok ==> p.extended_l2 == switch(value))
            &&& target == "qcow2"@ && key == "lazy_refcounts"@ ==> (r is Ok <==> switch(value)
                is Some) && (r is Ok ==> p.lazy_refcounts == switch(value))
            &&& target == "vmdk"@ && key == "subformat"@ ==> (r is Ok <==> vmdk_subformat_code(
                value,
            ) is Some) && (r is Ok ==> p.vmdk_subformat == vmdk_subformat_code(value))
            &&& target == "vmdk"@ && key == "grain_size"@ ==> (r is Ok <==> small) && (r is Ok
                ==> p.grain_size == Some(size->Ok_0 as u32))
            &&& target == "vpc"@ && key == "subformat"@ ==> (r is Ok <==> vhd_subformat_code(value)
                is Some) && (r is Ok ==> p.vhd_subformat == vhd_subformat_code(value))
            &&& target == "vhdx"@ && key == "subformat"@ ==> (r is Ok <==> value == "dynamic"@)
            &&& (target == "vpc"@ || target == "vhdx"@) && key == "block_size"@ ==> (r is Ok
                <==> small) && (r is Ok ==> p.block_size == Some(size->Ok_0 as u32))
        }),
{
    lemma_keys_differ();
    lemma_format_names_differ();
    lemma_subformats_differ();
    reveal_strlit("vhd");
}

/// A preallocation mode is one that the target can have: any of the four for
/// qcow2, those without metadata for raw, and `off` for the others. A backing
/// format is any that can be created, by one of its names.
pub proof fn law_mode_is_one_of_the_target(
    target: Seq<char>,
    o: CreateOverrides,
    value: Seq<char>,
)
    requires
        target == "raw"@ || target == "qcow2"@ || target == "vmdk"@ || target == "vpc"@ || target
            == "vhdx"@,
    ensures
        ({
            let r = create_set(target, o, "preallocation"@, value);
            let f = create_set(target, o, "backing_fmt"@, value);
            let space = value == "falloc"@ || value == "full"@;
            &&& r is Ok <==> value == "off"@ || (space && (target == "raw"@ || target
                == "qcow2"@)) || (value == "metadata"@ && target == "qcow2"@)
            &&& r is Ok ==> r->Ok_0.preallocation == Some(value)
            &&& f is Ok <==> target != "raw"@ && (value == "raw"@ || value == "qcow2"@ || value
                == "vmdk"@ || value == "vpc"@ || value == "vhd"@ || value == "vhdx"@)
        }),
{
    lemma_keys_differ();
    lemma_format_names_differ();
    lemma_modes_differ();
    lemma_idle_keys_differ();
}

/// Options that are read come from their pieces alone: none from no piece, and
/// from one piece what its key sets.
pub proof fn law_options_come_from_their_pieces(
    target: &str,
    raw: &[String],
    r: Result<CreateOptionOverrides, String>,
)
    requires
        call_ensures(parse_create_o_options, (target, raw), r),
    ensures
        ({
            let ps = all_pieces(raw@, raw@.len() as int);
            &&& ps.len() == 0 ==> r is Ok && r->Ok_0@ == no_create_overrides()
            &&& ps.len() == 1 && key_value(ps[0]) is None ==> r is Err
            &&& ps.len() == 1 && key_value(ps[0]) is Some ==> {
                let (key, value) = key_value(ps[0])->0;
                let s = create_set(target@, no_create_overrides(), key, value);
                (r is Ok <==> s is Ok) && (r is Ok ==> r->Ok_0@ == s->Ok_0)
            }
        }),
{
    reveal_with_fuel(create_fold, 2);
    let ps = all_pieces(raw@, raw@.len() as int);
    if ps.len() == 1 {
        assert(ps.last() == ps[0]);
        assert(ps.drop_last().len() == 0);
    }
}

/// Keys that say nothing to the guest are accepted and change nothing; the
/// compression type must be one of two.
pub proof fn law_idle_keys_change_nothing(o: CreateOverrides, value: Seq<char>)
    ensures
        create_set("vmdk"@, o, "adapter_type"@, value) == Ok::<CreateOverrides, Seq<char>>(o),
        create_set("vmdk"@, o, "hwversion"@, value) == Ok::<CreateOverrides, Seq<char>>(o),
        create_set("vmdk"@, o, "toolsversion"@, value) == Ok::<CreateOverrides, Seq<char>>(o),
        create_set("vmdk"@, o, "zeroed_grain"@, value) == Ok::<CreateOverrides, Seq<char>>(o),
        create_set("vpc"@, o, "force_size"@, value) == Ok::<CreateOverrides, Seq<char>>(o),
        create_set("vpc"@, o, "force_size_calc"@, value) == Ok::<CreateOverrides, Seq<char>>(o),
        create_set("vhdx"@, o, "log_size"@, value) == Ok::<CreateOverrides, Seq<char>>(o),
        create_set("vhdx"@, o, "block_state_zero"@, value) == Ok::<CreateOverrides, Seq<char>>(o),
        create_set("qcow2"@, o, "compression_type"@, value) is Ok <==> value == "zlib"@ || value
            == "zstd"@,
        value == "zlib"@ || value == "zstd"@ ==> create_set("qcow2"@, o, "compression_type"@, value)
            == Ok::<CreateOverrides, Seq<char>>(o),
{
    lemma_keys_differ();
    lemma_format_names_differ();
    lemma_idle_keys_differ();
}

/// The keys that say nothing to the guest differ from all others.
pub proof fn lemma_idle_keys_differ()
    ensures
        "hwversion"@.len() == 9,
        "adapter_type"@.len() == 12,
        "toolsversion"@.len() == 12,
        "zeroed_grain"@.len() == 12,
        "force_size"@.len() == 10,
        "force_size_calc"@.len() == 15,
        "log_size"@.len() == 8,
        "block_state_zero"@.len() == 16,
        "hwversion"@ != "subformat"@,
        "adapter_type"@ != "backing_file"@,
        "toolsversion"@ != "backing_file"@,
        "zeroed_grain"@ != "backing_file"@,
        "force_size"@ != "block_size"@,
{
    reveal_strlit("hwversion");
    reveal_strlit("adapter_type");
    reveal_strlit("toolsversion");
    reveal_strlit("zeroed_grain");
    reveal_strlit("force_size");
    reveal_strlit("force_size_calc");
    reveal_strlit("log_size");
    reveal_strlit("block_state_zero");
    reveal_strlit("subformat");
    reveal_strlit("backing_file");
    reveal_strlit("block_size");
    assert("hwversion"@[0] != "subformat"@[0]);
    assert("adapter_type"@[0] != "backing_file"@[0]);
    assert("toolsversion"@[0] != "backing_file"@[0]);
    assert("zeroed_grain"@[0] != "backing_file"@[0]);
    assert("force_size"@[0] != "block_size"@[0]);
}

/// Any other key is refused: a raw image has one of its own, and keys of data
/// files and encryption are not for qcow2 yet.
pub proof fn law_foreign_keys_are_refused(
    target: Seq<char>,
    o: CreateOverrides,
    key: Seq<char>,
    value: Seq<char>,
)
    requires
        create_set(target, o, key, value) is Ok,
    ensures
        target == "raw"@ ==> key == "size"@ || key == "preallocation"@,
        target == "qcow2"@ ==> key != "data_file"@ && key != "data_file_raw"@ && (key == "size"@
            || key == "backing_file"@ || key == "backing_fmt"@ || key == "cluster_size"@ || key
            == "compat"@ || key == "refcount_bits"@ || key == "extended_l2"@ || key
            == "lazy_refcounts"@ || key == "compression_type"@ || key == "preallocation"@),
{
    lemma_keys_differ();
    lemma_format_names_differ();
    reveal_strlit("data_file");
    reveal_strlit("data_file_raw");
    assert("data_file"@.len() == 9 && "data_file_raw"@.len() == 13);
    assert("data_file_raw"@[0] != "refcount_bits"@[0]) by {
        reveal_strlit("refcount_bits");
    }
    assert("data_file_raw"@[0] != "preallocation"@[0]) by {
        reveal_strlit("preallocation");
    }
}

} // verus!
