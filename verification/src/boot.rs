//! The state in which a guest starts: segment descriptors, page tables and
//! registers for 64-bit mode with all memory mapped to itself.
use vstd::prelude::*;
use crate::abi::{
    CODE_SELECTOR, CR0_PE, CR0_PG, CR4_PAE, DATA_SELECTOR, EFER_LMA, EFER_LME, GDT_BASE,
    GUEST_CODE_BASE, MAX_CHAIN_DEPTH, MMIO_SIZE, PAGE_TABLE_BASE, PTE_PAGE_SIZE, PTE_PRESENT,
    PTE_WRITABLE, STACK_TOP,
};
use crate::bytes::{le_bytes, push_u64};
use crate::size::GIB;
use crate::text::{dec, push_dec};

verus! {

/// A 64-bit code segment that covers all memory.
pub const CODE_DESCRIPTOR: u64 = 0x00AF_9A00_0000_FFFF;

/// A data segment that covers all memory.
pub const DATA_DESCRIPTOR: u64 = 0x00CF_9200_0000_FFFF;

/// The bytes of the global descriptor table.
pub open spec fn gdt_bytes() -> Seq<u8> {
    le_bytes(0, 8) + le_bytes(CODE_DESCRIPTOR as int, 8) + le_bytes(DATA_DESCRIPTOR as int, 8)
}

/// The global descriptor table, to be written at its base: the null
/// descriptor, the code segment and the data segment.
pub fn gdt_image() -> (r: Vec<u8>)
    ensures
        r@ == gdt_bytes(),
{
    let mut b: Vec<u8> = Vec::new();
    push_u64(&mut b, 0);
    assert(b@ =~= le_bytes(0, 8));
    push_u64(&mut b, CODE_DESCRIPTOR);
    push_u64(&mut b, DATA_DESCRIPTOR);
    b
}

/// Where the page directories start: behind the two upper tables.
pub const PAGE_DIRECTORY_BASE: u64 = 0x4000;

pub const PDPT_BASE: u64 = 0x3000;

/// The page directories that fit below the guest's code.
pub const MAX_PAGE_DIRECTORIES: u64 = 12;

/// The size of the pages that the directories map.
pub const PAGE_SIZE: u64 = 0x20_0000;

/// An entry that points to a lower table.
pub open spec fn table_entry(addr: int) -> int {
    addr + PTE_PRESENT + PTE_WRITABLE
}

/// An entry that maps a large page.
pub open spec fn page_entry(addr: int) -> int {
    addr + PTE_PRESENT + PTE_WRITABLE + PTE_PAGE_SIZE
}

/// The memory that must be mapped: the guest's own and the device registers.
pub open spec fn coverage(guest_mem_size: u64, mmio_base: u64) -> int {
    let end = mmio_base + MMIO_SIZE * MAX_CHAIN_DEPTH;
    if guest_mem_size as int >= end {
        guest_mem_size as int
    } else {
        end
    }
}

/// The page directories needed, one for each GiB begun.
pub open spec fn directories(guest_mem_size: u64, mmio_base: u64) -> int {
    (coverage(guest_mem_size, mmio_base) + GIB - 1) / GIB as int
}

/// An address and the 64-bit entry to write there.
#[derive(Debug, Clone, Copy, PartialEq, Eq, Structural)]
pub struct TableWrite {
    pub addr: u64,
    pub entry: u64,
}

/// The entry of the top table.
pub open spec fn top_writes() -> Seq<TableWrite> {
    seq![
        TableWrite { addr: PAGE_TABLE_BASE, entry: table_entry(PDPT_BASE as int) as u64 },
    ]
}

/// The pointers to `n` page directories.
pub open spec fn directory_writes(n: nat) -> Seq<TableWrite> {
    Seq::new(
        n,
        |i: int|
            TableWrite {
                addr: (PDPT_BASE + i * 8) as u64,
                entry: table_entry(PAGE_DIRECTORY_BASE + i * 0x1000) as u64,
            },
    )
}

/// The first `n` large pages, each mapped to itself.
pub open spec fn page_writes(n: nat) -> Seq<TableWrite> {
    Seq::new(
        n,
        |i: int|
            TableWrite {
                addr: (PAGE_DIRECTORY_BASE + i * 8) as u64,
                entry: page_entry(i * PAGE_SIZE) as u64,
            },
    )
}

/// All entries of the page tables for a guest with that much memory, or a
/// complaint where they would run into the guest's code.
pub open spec fn page_tables(guest_mem_size: u64, mmio_base: u64) -> Result<
    Seq<TableWrite>,
    Seq<char>,
> {
    let n = directories(guest_mem_size, mmio_base);
    if n > MAX_PAGE_DIRECTORIES {
        Err(
            "guest memory "@ + dec(n) + "GB requires "@ + dec(n) + " PD pages, max "@ + dec(
                MAX_PAGE_DIRECTORIES as int,
            ) + " ("@ + dec(MAX_PAGE_DIRECTORIES as int) + "GB)"@,
        )
    } else {
        Ok(top_writes() + directory_writes(n as nat) + page_writes((n * 512) as nat))
    }
}

proof fn lemma_flag_bits(addr: u64)
    requires
        addr % 0x1000 == 0,
        addr <= 0xffff_ffff_ffff_f000,
    ensures
        addr | PTE_PRESENT | PTE_WRITABLE == table_entry(addr as int),
        addr | PTE_PRESENT | PTE_WRITABLE | PTE_PAGE_SIZE == page_entry(addr as int),
{
    assert(addr | 1u64 | 2u64 == addr + 3) by (bit_vector)
        requires
            addr % 0x1000 == 0,
            addr <= 0xffff_ffff_ffff_f000,
    ;
    assert(addr | 1u64 | 2u64 | 0x80u64 == addr + 0x83) by (bit_vector)
        requires
            addr % 0x1000 == 0,
            addr <= 0xffff_ffff_ffff_f000,
    ;
}

/// Lays out the page tables for a guest with that much memory.
pub fn setup_page_tables(guest_mem_size: u64, mmio_base: u64) -> (r: Result<
    Vec<TableWrite>,
    String,
>)
    requires
        mmio_base + MMIO_SIZE * MAX_CHAIN_DEPTH <= u64::MAX,
    ensures
        match r {
            Ok(w) => page_tables(guest_mem_size, mmio_base) == Ok::<Seq<TableWrite>, Seq<char>>(
                w@,
            ),
            Err(e) => page_tables(guest_mem_size, mmio_base) == Err::<Seq<TableWrite>, Seq<char>>(
                e@,
            ),
        },
{
    let end: u64 = mmio_base + MMIO_SIZE * MAX_CHAIN_DEPTH as u64;
    let covered: u64 = if guest_mem_size >= end {
        guest_mem_size
    } else {
        end
    };
    let n: u64 = if covered % GIB == 0 {
        covered / GIB
    } else {
        covered / GIB + 1
    };
    if n > MAX_PAGE_DIRECTORIES {
        let mut s = "guest memory ".to_owned();
        push_dec(&mut s, n);
        s.append("GB requires ");
        push_dec(&mut s, n);
        s.append(" PD pages, max ");
        push_dec(&mut s, MAX_PAGE_DIRECTORIES);
        s.append(" (");
        push_dec(&mut s, MAX_PAGE_DIRECTORIES);
        s.append("GB)");
        return Err(s);
    }
    let mut w: Vec<TableWrite> = Vec::new();
    proof {
        lemma_flag_bits(PDPT_BASE);
    }
    w.push(TableWrite { addr: PAGE_TABLE_BASE, entry: PDPT_BASE | PTE_PRESENT | PTE_WRITABLE });
    assert(w@ =~= top_writes());
    let mut i: u64 = 0;
    assert(w@ =~= top_writes() + directory_writes(0));
    while i < n
        invariant
            i <= n <= MAX_PAGE_DIRECTORIES,
            w@ == top_writes() + directory_writes(i as nat),
        decreases n - i,
    {
        let at: u64 = PAGE_DIRECTORY_BASE + i * 0x1000;
        proof {
            lemma_flag_bits(at);
        }
        w.push(TableWrite { addr: PDPT_BASE + i * 8, entry: at | PTE_PRESENT | PTE_WRITABLE });
        i = i + 1;
        assert(w@ =~= top_writes() + directory_writes(i as nat));
    }
    let ghost upper = w@;
    let mut k: u64 = 0;
    assert(w@ =~= upper + page_writes(0));
    while k < n * 512
        invariant
            k <= n * 512,
            n <= MAX_PAGE_DIRECTORIES,
            w@ == upper + page_writes(k as nat),
        decreases n * 512 - k,
    {
        let at: u64 = k * PAGE_SIZE;
        proof {
            lemma_flag_bits(at);
        }
        w.push(
            TableWrite {
                addr: PAGE_DIRECTORY_BASE + k * 8,
                entry: at | PTE_PRESENT | PTE_WRITABLE | PTE_PAGE_SIZE,
            },
        );
        k = k + 1;
        assert(w@ =~= upper + page_writes(k as nat));
    }
    Ok(w)
}

/// A segment register.
#[derive(Debug, Clone, Copy, PartialEq, Eq, Structural)]
pub struct Segment {
    pub base: u64,
    pub limit: u32,
    pub selector: u16,
    pub seg_type: u8,
    pub present: u8,
    pub dpl: u8,
    pub db: u8,
    pub s: u8,
    pub l: u8,
    pub g: u8,
    pub avl: u8,
    pub unusable: u8,
}

/// A present segment of privilege level 0; code segments are 64-bit.
pub open spec fn segment(selector: u16, base: u64, limit: u32, seg_type: u8, code: bool) -> Segment {
    Segment {
        base,
        limit,
        selector,
        seg_type,
        present: 1,
        dpl: 0,
        db: 0,
        s: 1,
        l: if code {
            1
        } else {
            0
        },
        g: 1,
        avl: 0,
        unusable: 0,
    }
}

/// Builds a segment register.
pub fn make_segment(selector: u16, base: u64, limit: u32, seg_type: u8, code: bool) -> (r: Segment)
    ensures
        r == segment(selector, base, limit, seg_type, code),
{
    let l: u8 = if code {
        1
    } else {
        0
    };
    Segment {
        base,
        limit,
        selector,
        seg_type,
        present: 1,
        dpl: 0,
        db: 0,
        s: 1,
        l,
        g: 1,
        avl: 0,
        unusable: 0,
    }
}

/// The control and segment registers that a guest starts with.
#[derive(Debug, Clone, Copy, PartialEq, Eq, Structural)]
pub struct SpecialRegisters {
    pub cr0: u64,
    pub cr3: u64,
    pub cr4: u64,
    pub efer: u64,
    pub gdt_base: u64,
    pub gdt_limit: u16,
    pub idt_base: u64,
    pub idt_limit: u16,
    pub code: Segment,
    /// For `ds`, `es`, `fs`, `gs` and `ss`.
    pub data: Segment,
}

/// The control and segment registers that a guest starts with: protection,
/// paging and 64-bit mode on.
pub fn setup_sregs() -> (r: SpecialRegisters)
    ensures
        r.cr0 == CR0_PE + CR0_PG,
        r.cr3 == PAGE_TABLE_BASE,
        r.cr4 == CR4_PAE,
        r.efer == EFER_LME + EFER_LMA,
        r.gdt_base == GDT_BASE,
        r.gdt_limit == 23,
        r.idt_base == 0,
        r.idt_limit == 0,
        r.code == segment(CODE_SELECTOR, 0, 0xFFFF_FFFF, 11, true),
        r.data == segment(DATA_SELECTOR, 0, 0xFFFF_FFFF, 3, false),
{
    assert(1u64 | 0x8000_0000u64 == 0x8000_0001u64) by (bit_vector);
    assert(0x100u64 | 0x400u64 == 0x500u64) by (bit_vector);
    SpecialRegisters {
        cr0: CR0_PE | CR0_PG,
        cr3: PAGE_TABLE_BASE,
        cr4: CR4_PAE,
        efer: EFER_LME | EFER_LMA,
        gdt_base: GDT_BASE,
        gdt_limit: 23,
        idt_base: 0,
        idt_limit: 0,
        code: make_segment(CODE_SELECTOR, 0, 0xFFFF_FFFF, 11, true),
        data: make_segment(DATA_SELECTOR, 0, 0xFFFF_FFFF, 3, false),
    }
}

/// The general registers that a guest starts with; those not listed are zero.
#[derive(Debug, Clone, Copy, PartialEq, Eq, Structural)]
pub struct GeneralRegisters {
    pub rip: u64,
    pub rsp: u64,
    pub rflags: u64,
}

/// The general registers that a guest starts with.
pub fn setup_regs() -> (r: GeneralRegisters)
    ensures
        r == (GeneralRegisters { rip: GUEST_CODE_BASE, rsp: STACK_TOP, rflags: 0x2 }),
{
    GeneralRegisters { rip: GUEST_CODE_BASE, rsp: STACK_TOP, rflags: 0x2 }
}

// ---------------------------------------------------------------------------
// Laws
// ---------------------------------------------------------------------------

/// The descriptor at a selector is the one that the segment register names:
/// the table holds the code and the data descriptor at their selectors, and
/// its limit is its last byte.
pub proof fn law_selectors_index_the_table()
    ensures
        gdt_bytes().len() == 23 + 1,
        gdt_bytes().subrange(CODE_SELECTOR as int, CODE_SELECTOR + 8) == le_bytes(
            CODE_DESCRIPTOR as int,
            8,
        ),
        gdt_bytes().subrange(DATA_SELECTOR as int, DATA_SELECTOR + 8) == le_bytes(
            DATA_DESCRIPTOR as int,
            8,
        ),
{
    broadcast use crate::bytes::lemma_le_bytes_len;

    let b = gdt_bytes();
    assert(b.subrange(8, 16) =~= le_bytes(CODE_DESCRIPTOR as int, 8));
    assert(b.subrange(16, 24) =~= le_bytes(DATA_DESCRIPTOR as int, 8));
}

/// Every address of guest memory and of the device registers lies in a large
/// page that is mapped to itself, present and writable.
pub proof fn law_memory_is_mapped_to_itself(guest_mem_size: u64, mmio_base: u64, addr: int)
    requires
        page_tables(guest_mem_size, mmio_base) is Ok,
        0 <= addr < coverage(guest_mem_size, mmio_base),
    ensures
        ({
            let w = page_tables(guest_mem_size, mmio_base)->Ok_0;
            let page = addr / PAGE_SIZE as int;
            exists|k: int|
                0 <= k < w.len() && (#[trigger] w[k]).addr == PAGE_DIRECTORY_BASE + page * 8
                    && w[k].entry == page_entry(page * PAGE_SIZE)
        }),
{
    let w = page_tables(guest_mem_size, mmio_base)->Ok_0;
    let n = directories(guest_mem_size, mmio_base);
    let page = addr / PAGE_SIZE as int;
    assert(addr < n * GIB);
    assert(page < n * 512);
    let k = 1 + n + page;
    assert(w[k] == page_writes((n * 512) as nat)[page]);
}

/// The page tables lie between their base and the guest's code.
pub proof fn law_page_tables_keep_off_the_code(guest_mem_size: u64, mmio_base: u64, k: int)
    requires
        page_tables(guest_mem_size, mmio_base) is Ok,
        0 <= k < page_tables(guest_mem_size, mmio_base)->Ok_0.len(),
    ensures
        PAGE_TABLE_BASE <= page_tables(guest_mem_size, mmio_base)->Ok_0[k].addr,
        page_tables(guest_mem_size, mmio_base)->Ok_0[k].addr + 8 <= GUEST_CODE_BASE,
{
}

/// A walk through the tables leads from any address of memory or registers to
/// itself: the top table leads to the directory of its gigabyte, and that to
/// a page of two megabytes, each entry present and writable and the last one
/// marked as a page.
pub proof fn law_walk_leads_back_to_the_address(
    guest_mem_size: u64,
    mmio_base: u64,
    r: Result<Vec<TableWrite>, String>,
    addr: int,
)
    requires
        call_ensures(setup_page_tables, (guest_mem_size, mmio_base), r),
        r is Ok,
        0 <= addr,
        addr < guest_mem_size || addr < mmio_base + 16 * 0x1000,
    ensures
        ({
            let w = r->Ok_0@;
            let gib = addr / 0x4000_0000;
            let page = addr / 0x20_0000;
            &&& w.contains(TableWrite { addr: 0x2000, entry: 0x3003 })
            &&& w.contains(
                TableWrite {
                    addr: (0x3000 + gib * 8) as u64,
                    entry: (0x4000 + gib * 0x1000 + 3) as u64,
                },
            )
            &&& w.contains(
                TableWrite {
                    addr: (0x4000 + gib * 0x1000 + (page % 512) * 8) as u64,
                    entry: (page * 0x20_0000 + 0x83) as u64,
                },
            )
        }),
{
    let w = r->Ok_0@;
    let n = directories(guest_mem_size, mmio_base);
    let gib = addr / 0x4000_0000;
    let page = addr / 0x20_0000;
    assert(addr < n * GIB);
    assert(0 <= gib < n);
    assert(0 <= page < n * 512);
    assert(w[0] == top_writes()[0]);
    assert(w[0] == (TableWrite { addr: 0x2000, entry: 0x3003 }));
    assert(w[1 + gib] == directory_writes(n as nat)[gib]);
    assert(w[1 + n + page] == page_writes((n * 512) as nat)[page]);
    assert(gib == page / 512);
    assert(0x4000 + gib * 0x1000 + (page % 512) * 8 == 0x4000 + page * 8);
}

/// No entry is written twice.
pub proof fn law_each_entry_is_written_once(
    guest_mem_size: u64,
    mmio_base: u64,
    r: Result<Vec<TableWrite>, String>,
    i: int,
    j: int,
)
    requires
        call_ensures(setup_page_tables, (guest_mem_size, mmio_base), r),
        r is Ok,
        0 <= i < j < r->Ok_0@.len(),
    ensures
        r->Ok_0@[i].addr < r->Ok_0@[j].addr,
{
    let n = directories(guest_mem_size, mmio_base);
    let w = r->Ok_0@;
    assert(w.len() == 1 + n + n * 512);
    assert(0 <= n <= 12);
    assert(i == 0 ==> w[i].addr == 0x2000);
    assert(1 <= i < 1 + n ==> w[i].addr == 0x3000 + (i - 1) * 8);
    assert(1 + n <= i ==> w[i].addr == 0x4000 + (i - 1 - n) * 8);
    assert(1 <= j < 1 + n ==> w[j].addr == 0x3000 + (j - 1) * 8);
    assert(1 + n <= j ==> w[j].addr == 0x4000 + (j - 1 - n) * 8);
}

/// The tables are laid out exactly where what they map ends within twelve
/// gigabytes.
pub proof fn law_twelve_gigabytes_can_be_mapped(
    guest_mem_size: u64,
    mmio_base: u64,
    r: Result<Vec<TableWrite>, String>,
)
    requires
        call_ensures(setup_page_tables, (guest_mem_size, mmio_base), r),
    ensures
        r is Ok <==> guest_mem_size <= 0x3_0000_0000 && mmio_base + 16 * 0x1000 <= 0x3_0000_0000,
{
}

/// A guest starts in 64-bit mode: protection and paging on, with the tables
/// and descriptors where they were written, and at its code with an empty
/// stack.
pub proof fn law_guest_starts_in_64_bit_mode(s: SpecialRegisters, g: GeneralRegisters, table: Vec<u8>)
    requires
        call_ensures(setup_sregs, (), s),
        call_ensures(setup_regs, (), g),
        call_ensures(gdt_image, (), table),
    ensures
        s.cr0 == 0x8000_0001,
        s.cr3 == 0x2000,
        s.cr4 == 0x20,
        s.efer == 0x500,
        s.gdt_base == 0x1000,
        s.gdt_limit + 1 == table@.len(),
        s.idt_base == 0 && s.idt_limit == 0,
        s.code.selector == 8 && s.code.seg_type == 11 && s.code.l == 1 && s.code.db == 0,
        s.data.selector == 16 && s.data.seg_type == 3 && s.data.l == 0,
        s.code.base == 0 && s.data.base == 0,
        s.code.limit == 0xffff_ffff && s.data.limit == 0xffff_ffff,
        s.code.present == 1 && s.data.present == 1,
        s.code.dpl == 0 && s.data.dpl == 0,
        s.code.s == 1 && s.data.s == 1 && s.code.g == 1 && s.data.g == 1,
        s.code.unusable == 0 && s.data.unusable == 0,
        g.rip == 0x1_0000,
        g.rsp == 0x13f_fff8,
        g.rflags == 2,
{
    law_selectors_index_the_table();
}

/// A segment is what it is made of: present, of privilege level 0, with the
/// selector, base, limit and type that were given, and 64-bit exactly where it
/// holds code.
pub proof fn law_segment_is_what_it_is_made_of(
    selector: u16,
    base: u64,
    limit: u32,
    seg_type: u8,
    code: bool,
    r: Segment,
)
    requires
        call_ensures(make_segment, (selector, base, limit, seg_type, code), r),
    ensures
        r.selector == selector,
        r.base == base,
        r.limit == limit,
        r.seg_type == seg_type,
        r.l == 1 <==> code,
        r.l == 0 <==> !code,
        r.present == 1 && r.dpl == 0 && r.s == 1 && r.g == 1,
        r.db == 0 && r.avl == 0 && r.unusable == 0,
{
}

} // verus!
