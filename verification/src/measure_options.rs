//! The `-o` arguments of `measure`.
use vstd::prelude::*;
use crate::create_options::lemma_idle_keys_differ;
use crate::formats::lemma_format_names_differ;
use crate::options::{
    all_pieces, bad_value, bad_value_message, bool_option, compat_level, is_preallocation,
    key_value, lemma_keys_differ, lemma_subformats_differ, missing_value, option_pieces,
    parse_o_bool, parse_o_size_u32, parse_o_u8, read_compat, read_preallocation,
    read_vhd_subformat, read_vmdk_subformat, split_piece, switch, texts, u32_option, u8_option,
    vhd_subformat_code, vmdk_subformat_code,
};
use crate::size::memory_size;
use crate::text::{between, has_prefix, parsed, same, starts_with};

verus! {

/// The options that `-o` set, each `None` where it did not.
#[derive(Debug, Clone, Copy)]
pub struct MeasureOptionOverrides {
    pub cluster_size: Option<u32>,
    pub refcount_bits: Option<u8>,
    pub extended_l2: Option<bool>,
    pub lazy_refcounts: Option<bool>,
    pub compat_v3: Option<bool>,
    pub compression_used: Option<bool>,
    pub preallocation: Option<&'static str>,
    pub vmdk_subformat: Option<u8>,
    pub grain_size: Option<u32>,
    pub vhd_subformat: Option<u8>,
    pub block_size: Option<u32>,
}

/// The options that `-o` set, with names as texts.
pub struct MeasureOverrides {
    pub cluster_size: Option<u32>,
    pub refcount_bits: Option<u8>,
    pub extended_l2: Option<bool>,
    pub lazy_refcounts: Option<bool>,
    pub compat_v3: Option<bool>,
    pub compression_used: Option<bool>,
    pub preallocation: Option<Seq<char>>,
    pub vmdk_subformat: Option<u8>,
    pub grain_size: Option<u32>,
    pub vhd_subformat: Option<u8>,
    pub block_size: Option<u32>,
}

/// The text behind an optional name.
pub open spec fn name_text(name: Option<&'static str>) -> Option<Seq<char>> {
    match name {
        Some(s) => Some(s@),
        None => None,
    }
}

impl View for MeasureOptionOverrides {
    type V = MeasureOverrides;

    open spec fn view(&self) -> MeasureOverrides {
        MeasureOverrides {
            cluster_size: self.cluster_size,
            refcount_bits: self.refcount_bits,
            extended_l2: self.extended_l2,
            lazy_refcounts: self.lazy_refcounts,
            compat_v3: self.compat_v3,
            compression_used: self.compression_used,
            preallocation: name_text(self.preallocation),
            vmdk_subformat: self.vmdk_subformat,
            grain_size: self.grain_size,
            vhd_subformat: self.vhd_subformat,
            block_size: self.block_size,
        }
    }
}

/// No option set.
pub open spec fn no_measure_overrides() -> MeasureOverrides {
    MeasureOverrides {
        cluster_size: None,
        refcount_bits: None,
        extended_l2: None,
        lazy_refcounts: None,
        compat_v3: None,
        compression_used: None,
        preallocation: None,
        vmdk_subformat: None,
        grain_size: None,
        vhd_subformat: None,
        block_size: None,
    }
}

impl Default for MeasureOptionOverrides {
    fn default() -> (r: Self)
        ensures
            r@ == no_measure_overrides(),
    {
        MeasureOptionOverrides {
            cluster_size: None,
            refcount_bits: None,
            extended_l2: None,
            lazy_refcounts: None,
            compat_v3: None,
            compression_used: None,
            preallocation: None,
            vmdk_subformat: None,
            grain_size: None,
            vhd_subformat: None,
            block_size: None,
        }
    }
}

/// The complaint about a key that the target does not know.
pub open spec fn unrecognised(key: Seq<char>, target: Seq<char>) -> Seq<char> {
    "measure: unrecognised -o key '"@ + key + "' for target "@ + target
}

/// What a key of a qcow2 target does.
pub open spec fn measure_qcow2(o: MeasureOverrides, key: Seq<char>, value: Seq<char>) -> Result<
    MeasureOverrides,
    Seq<char>,
> {
    if key == "cluster_size"@ {
        match u32_option("measure"@, key, value) {
            Ok(n) => Ok(MeasureOverrides { cluster_size: Some(n), ..o }),
            Err(e) => Err(e),
        }
    } else if key == "compat"@ {
        match compat_level(value) {
            Some(v3) => Ok(MeasureOverrides { compat_v3: Some(v3), ..o }),
            None => Err(bad_value("measure"@, value, "compat"@, " (expected 0.10 or 1.1)"@)),
        }
    } else if key == "refcount_bits"@ {
        match u8_option("measure"@, key, value) {
            Ok(n) => Ok(MeasureOverrides { refcount_bits: Some(n), ..o }),
            Err(e) => Err(e),
        }
    } else if key == "extended_l2"@ {
        match bool_option("measure"@, key, value) {
            Ok(b) => Ok(MeasureOverrides { extended_l2: Some(b), ..o }),
            Err(e) => Err(e),
        }
    } else if key == "lazy_refcounts"@ {
        match bool_option("measure"@, key, value) {
            Ok(b) => Ok(MeasureOverrides { lazy_refcounts: Some(b), ..o }),
            Err(e) => Err(e),
        }
    } else if key == "compression_type"@ {
        if value == "zlib"@ || value == "zstd"@ {
            Ok(MeasureOverrides { compression_used: Some(false), ..o })
        } else {
            Err(bad_value("measure"@, value, "compression_type"@, ""@))
        }
    } else if key == "preallocation"@ {
        if is_preallocation(value) {
            Ok(MeasureOverrides { preallocation: Some(value), ..o })
        } else {
            Err(bad_value("measure"@, value, "preallocation"@, ""@))
        }
    } else if key == "backing_file"@ || key == "backing_fmt"@ || key == "data_file"@ || key
        == "data_file_raw"@ {
        Err(
            "measure: -o key '"@ + key
                + "' is not supported (chain/external-data measurement not implemented)"@,
        )
    } else if has_prefix(key, "encrypt."@) {
        Err(
            "measure: -o key '"@ + key
                + "' is not yet supported (LUKS-aware measurement is future work)"@,
        )
    } else {
        Err(unrecognised(key, "qcow2"@))
    }
}

/// What a key of a VMDK target does.
pub open spec fn measure_vmdk(o: MeasureOverrides, key: Seq<char>, value: Seq<char>) -> Result<
    MeasureOverrides,
    Seq<char>,
> {
    if key == "subformat"@ {
        match vmdk_subformat_code(value) {
            Some(n) => Ok(MeasureOverrides { vmdk_subformat: Some(n), ..o }),
            None => Err(
                bad_value(
                    "measure"@,
                    value,
                    "subformat"@,
                    " (expected monolithicSparse / streamOptimized / monolithicFlat)"@,
                ),
            ),
        }
    } else if key == "grain_size"@ {
        match u32_option("measure"@, key, value) {
            Ok(n) => Ok(MeasureOverrides { grain_size: Some(n), ..o }),
            Err(e) => Err(e),
        }
    } else if key == "adapter_type"@ || key == "hwversion"@ || key == "toolsversion"@ || key
        == "zeroed_grain"@ {
        Ok(o)
    } else {
        Err(unrecognised(key, "vmdk"@))
    }
}

/// What a key of a VHD target does.
pub open spec fn measure_vpc(o: MeasureOverrides, key: Seq<char>, value: Seq<char>) -> Result<
    MeasureOverrides,
    Seq<char>,
> {
    if key == "subformat"@ {
        match vhd_subformat_code(value) {
            Some(n) => Ok(MeasureOverrides { vhd_subformat: Some(n), ..o }),
            None => Err(
                bad_value("measure"@, value, "subformat"@, " (expected dynamic or fixed)"@),
            ),
        }
    } else if key == "force_size"@ || key == "force_size_calc"@ {
        Ok(o)
    } else {
        Err(unrecognised(key, "vpc"@))
    }
}

/// What a key of a VHDX target does.
pub open spec fn measure_vhdx(o: MeasureOverrides, key: Seq<char>, value: Seq<char>) -> Result<
    MeasureOverrides,
    Seq<char>,
> {
    if key == "subformat"@ {
        match vhd_subformat_code(value) {
            Some(0) => Ok(o),
            Some(_) => Err("measure: -O vhdx -o subformat=fixed is not yet supported"@),
            None => Err(
                bad_value("measure"@, value, "subformat"@, " (expected dynamic or fixed)"@),
            ),
        }
    } else if key == "block_size"@ {
        match u32_option("measure"@, key, value) {
            Ok(n) => Ok(MeasureOverrides { block_size: Some(n), ..o }),
            Err(e) => Err(e),
        }
    } else if key == "log_size"@ || key == "block_state_zero"@ {
        Ok(o)
    } else {
        Err(unrecognised(key, "vhdx"@))
    }
}

/// What a key does for a target format.
pub open spec fn measure_set(
    target: Seq<char>,
    o: MeasureOverrides,
    key: Seq<char>,
    value: Seq<char>,
) -> Result<MeasureOverrides, Seq<char>> {
    if target == "qcow2"@ {
        measure_qcow2(o, key, value)
    } else if target == "vmdk"@ {
        measure_vmdk(o, key, value)
    } else if target == "vpc"@ {
        measure_vpc(o, key, value)
    } else if target == "vhdx"@ {
        measure_vhdx(o, key, value)
    } else {
        Err(unrecognised(key, target))
    }
}

/// What a piece does.
pub open spec fn measure_step(target: Seq<char>, o: MeasureOverrides, piece: Seq<char>) -> Result<
    MeasureOverrides,
    Seq<char>,
> {
    match key_value(piece) {
        None => Err(missing_value("measure"@, piece)),
        Some((key, value)) => measure_set(target, o, key, value),
    }
}

/// What a list of pieces sets, or the first complaint.
pub open spec fn measure_fold(target: Seq<char>, ps: Seq<Seq<char>>) -> Result<
    MeasureOverrides,
    Seq<char>,
>
    decreases ps.len(),
{
    if ps.len() == 0 {
        Ok(no_measure_overrides())
    } else {
        match measure_fold(target, ps.drop_last()) {
            Ok(o) => measure_step(target, o, ps.last()),
            Err(e) => Err(e),
        }
    }
}

/// What the `-o` arguments of `measure` set. A raw target takes none.
pub open spec fn measure_options(target: Seq<char>, raw: Seq<String>) -> Result<
    MeasureOverrides,
    Seq<char>,
> {
    if target == "raw"@ && raw.len() > 0 {
        Err("measure: raw output does not support -o options"@)
    } else {
        measure_fold(target, all_pieces(raw, raw.len() as int))
    }
}

/// A result of this parser, with names and errors as texts.
pub open spec fn measure_outcome(r: Result<MeasureOptionOverrides, String>) -> Result<
    MeasureOverrides,
    Seq<char>,
> {
    match r {
        Ok(o) => Ok(o@),
        Err(e) => Err(e@),
    }
}

fn unrecognised_message(key: &str, target: &str) -> (r: String)
    ensures
        r@ == unrecognised(key@, target@),
{
    let mut s = "measure: unrecognised -o key '".to_owned();
    s.append(key);
    s.append("' for target ");
    s.append(target);
    s
}

fn apply_qcow2(o: MeasureOptionOverrides, key: &str, value: &str) -> (r: Result<
    MeasureOptionOverrides,
    String,
>)
    ensures
        measure_outcome(r) == measure_qcow2(o@, key@, value@),
{
    let mut o = o;
    if same(key, "cluster_size") {
        match parse_o_size_u32(key, value) {
            Ok(n) => {
                o.cluster_size = Some(n);
            },
            Err(e) => {
                return Err(e);
            },
        }
    } else if same(key, "compat") {
        match read_compat(value) {
            Some(v3) => {
                o.compat_v3 = Some(v3);
            },
            None => {
                return Err(
                    bad_value_message("measure", value, "compat", " (expected 0.10 or 1.1)"),
                );
            },
        }
    } else if same(key, "refcount_bits") {
        match parse_o_u8(key, value) {
            Ok(n) => {
                o.refcount_bits = Some(n);
            },
            Err(e) => {
                return Err(e);
            },
        }
    } else if same(key, "extended_l2") {
        match parse_o_bool(key, value) {
            Ok(b) => {
                o.extended_l2 = Some(b);
            },
            Err(e) => {
                return Err(e);
            },
        }
    } else if same(key, "lazy_refcounts") {
        match parse_o_bool(key, value) {
            Ok(b) => {
                o.lazy_refcounts = Some(b);
            },
            Err(e) => {
                return Err(e);
            },
        }
    } else if same(key, "compression_type") {
        if same(value, "zlib") || same(value, "zstd") {
            o.compression_used = Some(false);
        } else {
            return Err(bad_value_message("measure", value, "compression_type", ""));
        }
    } else if same(key, "preallocation") {
        match read_preallocation(value) {
            Some(m) => {
                o.preallocation = Some(m);
            },
            None => {
                return Err(bad_value_message("measure", value, "preallocation", ""));
            },
        }
    } else if same(key, "backing_file") || same(key, "backing_fmt") || same(key, "data_file")
        || same(key, "data_file_raw") {
        return Err(
            between(
                "measure: -o key '",
                key,
                "' is not supported (chain/external-data measurement not implemented)",
            ),
        );
    } else if starts_with(key, "encrypt.") {
        return Err(
            between(
                "measure: -o key '",
                key,
                "' is not yet supported (LUKS-aware measurement is future work)",
            ),
        );
    } else {
        return Err(unrecognised_message(key, "qcow2"));
    }
    Ok(o)
}

fn apply_vmdk(o: MeasureOptionOverrides, key: &str, value: &str) -> (r: Result<
    MeasureOptionOverrides,
    String,
>)
    ensures
        measure_outcome(r) == measure_vmdk(o@, key@, value@),
{
    let mut o = o;
    if same(key, "subformat") {
        match read_vmdk_subformat(value) {
            Some(n) => {
                o.vmdk_subformat = Some(n);
            },
            None => {
                return Err(
                    bad_value_message(
                        "measure",
                        value,
                        "subformat",
                        " (expected monolithicSparse / streamOptimized / monolithicFlat)",
                    ),
                );
            },
        }
    } else if same(key, "grain_size") {
        match parse_o_size_u32(key, value) {
            Ok(n) => {
                o.grain_size = Some(n);
            },
            Err(e) => {
                return Err(e);
            },
        }
    } else if same(key, "adapter_type") || same(key, "hwversion") || same(key, "toolsversion")
        || same(key, "zeroed_grain") {
    } else {
        return Err(unrecognised_message(key, "vmdk"));
    }
    Ok(o)
}

fn apply_vpc(o: MeasureOptionOverrides, key: &str, value: &str) -> (r: Result<
    MeasureOptionOverrides,
    String,
>)
    ensures
        measure_outcome(r) == measure_vpc(o@, key@, value@),
{
    let mut o = o;
    if same(key, "subformat") {
        match read_vhd_subformat(value) {
            Some(n) => {
                o.vhd_subformat = Some(n);
            },
            None => {
                return Err(
                    bad_value_message("measure", value, "subformat", " (expected dynamic or fixed)"),
                );
            },
        }
    } else if same(key, "force_size") || same(key, "force_size_calc") {
    } else {
        return Err(unrecognised_message(key, "vpc"));
    }
    Ok(o)
}

fn apply_vhdx(o: MeasureOptionOverrides, key: &str, value: &str) -> (r: Result<
    MeasureOptionOverrides,
    String,
>)
    ensures
        measure_outcome(r) == measure_vhdx(o@, key@, value@),
{
    let mut o = o;
    if same(key, "subformat") {
        match read_vhd_subformat(value) {
            Some(n) => {
                if n != 0 {
                    return Err(
                        "measure: -O vhdx -o subformat=fixed is not yet supported".to_owned(),
                    );
                }
            },
            None => {
                return Err(
                    bad_value_message("measure", value, "subformat", " (expected dynamic or fixed)"),
                );
            },
        }
    } else if same(key, "block_size") {
        match parse_o_size_u32(key, value) {
            Ok(n) => {
                o.block_size = Some(n);
            },
            Err(e) => {
                return Err(e);
            },
        }
    } else if same(key, "log_size") || same(key, "block_state_zero") {
    } else {
        return Err(unrecognised_message(key, "vhdx"));
    }
    Ok(o)
}

fn apply_piece(target: &str, o: MeasureOptionOverrides, piece: &str) -> (r: Result<
    MeasureOptionOverrides,
    String,
>)
    ensures
        measure_outcome(r) == measure_step(target@, o@, piece@),
{
    let (key, value): (String, String) = match split_piece("measure", piece) {
        Ok(kv) => kv,
        Err(e) => {
            return Err(e);
        },
    };
    if same(target, "qcow2") {
        apply_qcow2(o, key.as_str(), value.as_str())
    } else if same(target, "vmdk") {
        apply_vmdk(o, key.as_str(), value.as_str())
    } else if same(target, "vpc") {
        apply_vpc(o, key.as_str(), value.as_str())
    } else if same(target, "vhdx") {
        apply_vhdx(o, key.as_str(), value.as_str())
    } else {
        Err(unrecognised_message(key.as_str(), target))
    }
}

proof fn lemma_measure_fold_error(target: Seq<char>, ps: Seq<Seq<char>>, i: int)
    requires
        0 <= i <= ps.len(),
        measure_fold(target, ps.take(i)) is Err,
    ensures
        measure_fold(target, ps) == measure_fold(target, ps.take(i)),
    decreases ps.len() - i,
{
    if i < ps.len() {
        assert(ps.take(i + 1).drop_last() =~= ps.take(i));
        lemma_measure_fold_error(target, ps, i + 1);
    } else {
        assert(ps.take(i) =~= ps);
    }
}

/// Reads the `-o` arguments of `measure` for a target format.
pub fn parse_o_options(target: &str, raw: &[String]) -> (r: Result<MeasureOptionOverrides, String>)
    ensures
        measure_outcome(r) == measure_options(target@, raw@),
{
    if same(target, "raw") && raw.len() > 0 {
        return Err("measure: raw output does not support -o options".to_owned());
    }
    let parts = option_pieces(raw);
    let ghost ps = texts(parts@);
    let mut o = MeasureOptionOverrides::default();
    let mut i: usize = 0;
    assert(ps.take(0) =~= Seq::<Seq<char>>::empty());
    while i < parts.len()
        invariant
            i <= parts@.len(),
            ps == texts(parts@),
            ps == all_pieces(raw@, raw@.len() as int),
            measure_fold(target@, ps.take(i as int)) == Ok::<MeasureOverrides, Seq<char>>(o@),
            measure_options(target@, raw@) == measure_fold(target@, ps),
        decreases parts.len() - i,
    {
        assert(ps.take(i + 1).drop_last() =~= ps.take(i as int));
        assert(ps.take(i + 1).last() == parts@[i as int]@);
        match apply_piece(target, o, parts[i].as_str()) {
            Ok(next) => {
                o = next;
            },
            Err(e) => {
                proof {
                    lemma_measure_fold_error(target@, ps, i + 1);
                }
                return Err(e);
            },
        }
        i = i + 1;
    }
    assert(ps.take(i as int) =~= ps);
    Ok(o)
}

// ---------------------------------------------------------------------------
// Laws
// ---------------------------------------------------------------------------

/// Of two pieces with the same key, the later one wins: what the earlier one
/// set leaves no trace.
pub proof fn law_last_piece_wins(
    target: Seq<char>,
    o: MeasureOverrides,
    key: Seq<char>,
    first: Seq<char>,
    second: Seq<char>,
)
    requires
        measure_set(target, o, key, first) is Ok,
    ensures
        measure_set(target, measure_set(target, o, key, first)->Ok_0, key, second) == measure_set(
            target,
            o,
            key,
            second,
        ),
{
}

/// An option changes by its own key alone, and only for a target that has it:
/// whatever else is given, every other option stays as it was.
pub proof fn law_option_changes_by_its_own_key(
    target: Seq<char>,
    o: MeasureOverrides,
    key: Seq<char>,
    value: Seq<char>,
)
    requires
        measure_set(target, o, key, value) is Ok,
    ensures
        ({
            let p = measure_set(target, o, key, value)->Ok_0;
            &&& p.cluster_size != o.cluster_size ==> key == "cluster_size"@ && target == "qcow2"@
            &&& p.compat_v3 != o.compat_v3 ==> key == "compat"@ && target == "qcow2"@
            &&& p.refcount_bits != o.refcount_bits ==> key == "refcount_bits"@ && target
                == "qcow2"@
            &&& p.extended_l2 != o.extended_l2 ==> key == "extended_l2"@ && target == "qcow2"@
            &&& p.lazy_refcounts != o.lazy_refcounts ==> key == "lazy_refcounts"@ && target
                == "qcow2"@
            &&& p.compression_used != o.compression_used ==> key == "compression_type"@ && target
                == "qcow2"@
            &&& p.preallocation != o.preallocation ==> key == "preallocation"@ && target
                == "qcow2"@
            &&& p.vmdk_subformat != o.vmdk_subformat ==> key == "subformat"@ && target == "vmdk"@
            &&& p.grain_size != o.grain_size ==> key == "grain_size"@ && target == "vmdk"@
            &&& p.vhd_subformat != o.vhd_subformat ==> key == "subformat"@ && target == "vpc"@
            &&& p.block_size != o.block_size ==> key == "block_size"@ && target == "vhdx"@
        }),
{
}

/// A key sets its option to what its value stands for: sizes and numbers to
/// what they say, switches to on or off, names to themselves or their number.
pub proof fn law_key_sets_its_option(
    target: Seq<char>,
    o: MeasureOverrides,
    key: Seq<char>,
    value: Seq<char>,
)
    ensures
        ({
            let r = measure_set(target, o, key, value);
            let p = r->Ok_0;
            let size = memory_size(value);
            let small = size is Ok && size->Ok_0 <= u32::MAX;
            &&& target == "qcow2"@ && key == "cluster_size"@ ==> (r is Ok <==> small) && (r is Ok
                ==> p.cluster_size == Some(size->Ok_0 as u32))
            &&& target == "qcow2"@ && key == "compat"@ ==> (r is Ok <==> value == "1.1"@ || value
                == "0.10"@) && (r is Ok ==> p.compat_v3 == Some(value == "1.1"@))
            &&& target == "qcow2"@ && key == "refcount_bits"@ ==> (r is Ok <==> parsed(value, 255)
                is Some) && (r is Ok ==> p.refcount_bits == Some(parsed(value, 255)->0 as u8))
            &&& target == "qcow2"@ && key == "extended_l2"@ ==> (r is Ok <==> switch(value) is Some)
                && (r is Ok ==> p.extended_l2 == switch(value))
            &&& target == "qcow2"@ && key == "lazy_refcounts"@ ==> (r is Ok <==> switch(value)
                is Some) && (r is Ok ==> p.lazy_refcounts == switch(value))
            &&& target == "qcow2"@ && key == "compression_type"@ ==> (r is Ok <==> value == "zlib"@
                || value == "zstd"@) && (r is Ok ==> p.compression_used == Some(false))
            &&& target == "qcow2"@ && key == "preallocation"@ ==> (r is Ok <==> value == "off"@
                || value == "metadata"@ || value == "falloc"@ || value == "full"@) && (r is Ok
                ==> p.preallocation == Some(value))
            &&& target == "vmdk"@ && key == "subformat"@ ==> (r is Ok <==> vmdk_subformat_code(
                value,
            ) is Some) && (r is Ok ==> p.vmdk_subformat == vmdk_subformat_code(value))
            &&& target == "vmdk"@ && key == "grain_size"@ ==> (r is Ok <==> small) && (r is Ok
                ==> p.grain_size == Some(size->Ok_0 as u32))
            &&& target == "vpc"@ && key == "subformat"@ ==> (r is Ok <==> vhd_subformat_code(value)
                is Some) && (r is Ok ==> p.vhd_subformat == vhd_subformat_code(value))
            &&& target == "vhdx"@ && key == "subformat"@ ==> (r is Ok <==> value == "dynamic"@)
            &&& target == "vhdx"@ && key == "block_size"@ ==> (r is Ok <==> small) && (r is Ok
                ==> p.block_size == Some(size->Ok_0 as u32))
            &&& target == "raw"@ ==> r is Err
        }),
{
    lemma_keys_differ();
    lemma_format_names_differ();
    lemma_subformats_differ();
}

/// Options that are read come from their pieces alone: none from no piece, and
/// from one piece what its key sets. A raw image has none to give.
pub proof fn law_options_come_from_their_pieces(
    target: &str,
    raw: &[String],
    r: Result<MeasureOptionOverrides, String>,
)
    requires
        call_ensures(parse_o_options, (target, raw), r),
    ensures
        ({
            let ps = all_pieces(raw@, raw@.len() as int);
            &&& target@ == "raw"@ && raw@.len() > 0 ==> r is Err
            &&& target@ != "raw"@ && ps.len() == 0 ==> r is Ok && r->Ok_0@
                == no_measure_overrides()
            &&& ps.len() == 1 && key_value(ps[0]) is None ==> r is Err
            &&& target@ != "raw"@ && ps.len() == 1 && key_value(ps[0]) is Some ==> {
                let (key, value) = key_value(ps[0])->0;
                let s = measure_set(target@, no_measure_overrides(), key, value);
                (r is Ok <==> s is Ok) && (r is Ok ==> r->Ok_0@ == s->Ok_0)
            }
        }),
{
    reveal_with_fuel(measure_fold, 2);
    let ps = all_pieces(raw@, raw@.len() as int);
    if ps.len() == 1 {
        assert(ps.last() == ps[0]);
        assert(ps.drop_last().len() == 0);
    }
}

/// Keys that say nothing to the guest are accepted and change nothing.
pub proof fn law_idle_keys_change_nothing(o: MeasureOverrides, value: Seq<char>)
    ensures
        measure_set("vmdk"@, o, "adapter_type"@, value) == Ok::<MeasureOverrides, Seq<char>>(o),
        measure_set("vmdk"@, o, "hwversion"@, value) == Ok::<MeasureOverrides, Seq<char>>(o),
        measure_set("vmdk"@, o, "toolsversion"@, value) == Ok::<MeasureOverrides, Seq<char>>(o),
        measure_set("vmdk"@, o, "zeroed_grain"@, value) == Ok::<MeasureOverrides, Seq<char>>(o),
        measure_set("vpc"@, o, "force_size"@, value) == Ok::<MeasureOverrides, Seq<char>>(o),
        measure_set("vpc"@, o, "force_size_calc"@, value) == Ok::<MeasureOverrides, Seq<char>>(o),
        measure_set("vhdx"@, o, "log_size"@, value) == Ok::<MeasureOverrides, Seq<char>>(o),
        measure_set("vhdx"@, o, "block_state_zero"@, value) == Ok::<MeasureOverrides, Seq<char>>(
            o,
        ),
{
    lemma_keys_differ();
    lemma_format_names_differ();
    lemma_idle_keys_differ();
}

} // verus!
