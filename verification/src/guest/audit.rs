//! The audit plugin: the page of the log that a request asks for, and the
//! entry that a request adds.

use crate::db::schema::AuditLog;
use crate::text::joined;
use std::collections::hash_map::DefaultHasher;
use std::hash::Hasher;
use vstd::prelude::*;
use vstd::std_specs::hash::DefaultHasherAdditionalSpecFns;

verus! {

/// The page that is shown where a request names none.
pub const DEFAULT_PAGE: i32 = 1;

/// The entries on a page where a request does not say how many.
pub const DEFAULT_LIMIT: i32 = 50;

/// The most entries on a page.
pub const MAX_LIMIT: i32 = 200;

/// The page that a request asks for: the first where it names none or one
/// before the first.
pub open spec fn chosen_page(page: Option<i32>) -> int {
    let p = match page {
        Some(p) => p as int,
        None => DEFAULT_PAGE as int,
    };
    if p < 1 {
        1
    } else {
        p
    }
}

/// The entries on a page that a request asks for: 50 where it does not say,
/// at least 1 and at most 200.
pub open spec fn chosen_limit(limit: Option<i32>) -> int {
    let l = match limit {
        Some(l) => l as int,
        None => DEFAULT_LIMIT as int,
    };
    if l < 1 {
        1
    } else if l > MAX_LIMIT {
        MAX_LIMIT as int
    } else {
        l
    }
}

/// The entries that lie before a page, or the largest `i32` where they are
/// more.
pub open spec fn page_offset(page: int, limit: int) -> int {
    let before = (page - 1) * limit;
    if before > i32::MAX {
        i32::MAX as int
    } else {
        before
    }
}

/// The pages that `total` entries fill with `limit` entries on a page: the
/// quotient rounded up, within the range of an `i32`.
pub open spec fn pages_for(total: int, limit: int) -> int {
    let pages = if total >= 0 {
        (total + limit - 1) / limit
    } else {
        -((-total) / limit)
    };
    if pages > i32::MAX {
        i32::MAX as int
    } else if pages < i32::MIN {
        i32::MIN as int
    } else {
        pages
    }
}

/// The number of pages that is reported for a filtered page: one more than
/// the page where the page is full, for there may be more entries; else the
/// page itself.
pub open spec fn filtered_pages(returned: nat, page: int, limit: int) -> int {
    if returned == limit {
        if page + 1 > i32::MAX {
            i32::MAX as int
        } else {
            page + 1
        }
    } else {
        page
    }
}

/// A page of the log: its number from 1, the entries on a page, and the
/// entries that lie before it.
#[derive(Debug, Clone, Copy)]
pub struct PageWindow {
    page: i32,
    limit: i32,
    offset: i32,
}

impl PageWindow {
    #[verifier::type_invariant]
    spec fn inv(&self) -> bool {
        &&& 1 <= self.page
        &&& 1 <= self.limit <= MAX_LIMIT
        &&& self.offset == page_offset(self.page as int, self.limit as int)
    }

    /// The number of the page, from 1.
    pub closed spec fn spec_page(&self) -> int {
        self.page as int
    }

    /// The entries on a page.
    pub closed spec fn spec_limit(&self) -> int {
        self.limit as int
    }

    /// The entries that lie before the page.
    pub closed spec fn spec_offset(&self) -> int {
        self.offset as int
    }

    /// The page that a request asks for.
    pub fn new(page: Option<i32>, limit: Option<i32>) -> (r: Self)
        ensures
            r.spec_page() == chosen_page(page),
            r.spec_limit() == chosen_limit(limit),
            r.spec_offset() == page_offset(chosen_page(page), chosen_limit(limit)),
    {
        let p = match page {
            Some(p) => p,
            None => DEFAULT_PAGE,
        };
        let p: i32 = if p < 1 {
            1
        } else {
            p
        };
        let l = match limit {
            Some(l) => l,
            None => DEFAULT_LIMIT,
        };
        let l: i32 = if l < 1 {
            1
        } else if l > MAX_LIMIT {
            MAX_LIMIT
        } else {
            l
        };
        let pages_before: i64 = p as i64 - 1;
        assert(0 <= pages_before * (l as i64) <= 0x7fff_ffff * 200) by (nonlinear_arith)
            requires
                0 <= pages_before <= 0x7fff_ffff,
                1 <= l <= 200,
        ;
        let before: i64 = pages_before * (l as i64);
        let offset: i32 = if before > i32::MAX as i64 {
            i32::MAX
        } else {
            before as i32
        };
        PageWindow { page: p, limit: l, offset }
    }

    /// The number of the page, from 1.
    pub fn page(&self) -> (r: i32)
        ensures
            r == self.spec_page(),
            r >= 1,
    {
        proof {
            use_type_invariant(self);
        }
        self.page
    }

    /// The entries on a page.
    pub fn limit(&self) -> (r: i32)
        ensures
            r == self.spec_limit(),
            1 <= r <= MAX_LIMIT,
    {
        proof {
            use_type_invariant(self);
        }
        self.limit
    }

    /// The entries that lie before the page.
    pub fn offset(&self) -> (r: i32)
        ensures
            r == self.spec_offset(),
            r == page_offset(self.spec_page(), self.spec_limit()),
            r >= 0,
    {
        proof {
            use_type_invariant(self);
            assert(0 <= (self.page - 1) * self.limit) by (nonlinear_arith)
                requires
                    1 <= self.page,
                    1 <= self.limit,
            ;
        }
        self.offset
    }

    /// The pages that `total` entries fill.
    pub fn page_count(&self, total: i64) -> (r: i32)
        ensures
            r == pages_for(total as int, self.spec_limit()),
    {
        proof {
            use_type_invariant(self);
        }
        let limit = self.limit as i64;
        let pages: i64 = if total >= 0 {
            let whole = total / limit;
            let rest = total % limit;
            proof {
                vstd::arithmetic::div_mod::lemma_fundamental_div_mod(total as int, limit as int);
                vstd::arithmetic::div_mod::lemma_div_pos_is_pos(total as int, limit as int);
                assert(total == whole * limit + rest) by (nonlinear_arith)
                    requires
                        total == limit * (total / limit) + total % limit,
                        whole == total / limit,
                        rest == total % limit,
                ;
                assert((total + limit - 1) / (limit as int) == if rest == 0 {
                    whole as int
                } else {
                    whole + 1
                }) by (nonlinear_arith)
                    requires
                        total >= 0,
                        limit >= 1,
                        whole == total / limit,
                        rest == total % limit,
                ;
                assert(rest != 0 ==> 2 * whole <= total) by (nonlinear_arith)
                    requires
                        total >= 0,
                        limit >= 1,
                        whole == total / limit,
                        rest == total % limit,
                        0 <= rest < limit,
                        whole >= 0,
                        total == whole * limit + rest,
                ;
            }
            if rest == 0 {
                whole
            } else {
                whole + 1
            }
        } else {
            let below: i64 = -(total + 1);
            let whole = below / limit;
            let rest = below % limit;
            proof {
                assert((-total) / (limit as int) == if rest == limit - 1 {
                    whole + 1
                } else {
                    whole as int
                }) by (nonlinear_arith)
                    requires
                        below == -total - 1,
                        below >= 0,
                        limit >= 1,
                        whole == below / limit,
                        rest == below % limit,
                ;
            }
            if rest == limit - 1 {
                -whole - 1
            } else {
                -whole
            }
        };
        if pages > i32::MAX as i64 {
            i32::MAX
        } else if pages < i32::MIN as i64 {
            i32::MIN
        } else {
            pages as i32
        }
    }

    /// The number of pages that is reported for this page of a filtered
    /// query, of which `returned` entries came back.
    pub fn filtered_page_count(&self, returned: usize) -> (r: i32)
        ensures
            r == filtered_pages(returned as nat, self.spec_page(), self.spec_limit()),
    {
        proof {
            use_type_invariant(self);
        }
        if returned == self.limit as usize {
            if self.page == i32::MAX {
                i32::MAX
            } else {
                self.page + 1
            }
        } else {
            self.page
        }
    }
}

/// The hexadecimal digit of a number below sixteen, in lower case.
pub open spec fn hex_digit(d: nat) -> char {
    if d == 0 {
        '0'
    } else if d == 1 {
        '1'
    } else if d == 2 {
        '2'
    } else if d == 3 {
        '3'
    } else if d == 4 {
        '4'
    } else if d == 5 {
        '5'
    } else if d == 6 {
        '6'
    } else if d == 7 {
        '7'
    } else if d == 8 {
        '8'
    } else if d == 9 {
        '9'
    } else if d == 10 {
        'a'
    } else if d == 11 {
        'b'
    } else if d == 12 {
        'c'
    } else if d == 13 {
        'd'
    } else if d == 14 {
        'e'
    } else {
        'f'
    }
}

/// A number in hexadecimal digits, in lower case and without leading zeros.
pub open spec fn hex(n: nat) -> Seq<char>
    decreases n,
{
    if n < 16 {
        seq![hex_digit(n)]
    } else {
        hex(n / 16).push(hex_digit(n % 16))
    }
}

/// The hexadecimal digit of a number below sixteen, as a text of one
/// character.
pub(crate) fn hex_digit_text(d: u8) -> (r: &'static str)
    requires
        d < 16,
    ensures
        r@ == seq![hex_digit(d as nat)],
{
    proof {
        reveal_strlit("0");
        reveal_strlit("1");
        reveal_strlit("2");
        reveal_strlit("3");
        reveal_strlit("4");
        reveal_strlit("5");
        reveal_strlit("6");
        reveal_strlit("7");
        reveal_strlit("8");
        reveal_strlit("9");
        reveal_strlit("a");
        reveal_strlit("b");
        reveal_strlit("c");
        reveal_strlit("d");
        reveal_strlit("e");
        reveal_strlit("f");
    }
    let r = if d == 0 {
        "0"
    } else if d == 1 {
        "1"
    } else if d == 2 {
        "2"
    } else if d == 3 {
        "3"
    } else if d == 4 {
        "4"
    } else if d == 5 {
        "5"
    } else if d == 6 {
        "6"
    } else if d == 7 {
        "7"
    } else if d == 8 {
        "8"
    } else if d == 9 {
        "9"
    } else if d == 10 {
        "a"
    } else if d == 11 {
        "b"
    } else if d == 12 {
        "c"
    } else if d == 13 {
        "d"
    } else if d == 14 {
        "e"
    } else {
        "f"
    };
    assert(r@ =~= seq![hex_digit(d as nat)]);
    r
}

/// A number in hexadecimal digits.
pub fn hex_text(n: u64) -> (r: String)
    ensures
        r@ == hex(n as nat),
    decreases n,
{
    if n < 16 {
        hex_digit_text(n as u8).to_owned()
    } else {
        let head = hex_text(n / 16);
        let last = hex_digit_text((n % 16) as u8);
        assert(head@ + last@ =~= head@.push(hex_digit((n % 16) as nat)));
        joined(head.as_str(), last)
    }
}

/// The identifier of an entry that is made from the number `seed`.
pub fn audit_id(seed: u64) -> (r: String)
    ensures
        r@ == "audit_"@ + hex(seed as nat),
{
    let digits = hex_text(seed);
    joined("audit_", digits.as_str())
}

/// A time read as an unsigned 64-bit number in two's complement.
pub open spec fn as_unsigned(time: i64) -> nat {
    if time >= 0 {
        time as nat
    } else {
        (time + 0x1_0000_0000_0000_0000) as nat
    }
}

/// The eight bytes of a number, the lowest first.
pub open spec fn low_first_bytes(n: nat) -> Seq<u8> {
    seq![
        (n % 256) as u8,
        (n / 0x100 % 256) as u8,
        (n / 0x1_0000 % 256) as u8,
        (n / 0x100_0000 % 256) as u8,
        (n / 0x1_0000_0000 % 256) as u8,
        (n / 0x100_0000_0000 % 256) as u8,
        (n / 0x1_0000_0000_0000 % 256) as u8,
        (n / 0x100_0000_0000_0000 % 256) as u8,
    ]
}

/// The number that identifies an entry made at the time `time`: the digest
/// of the time's eight bytes by the standard hasher.
pub open spec fn id_seed(time: i64) -> u64 {
    DefaultHasher::spec_finish(seq![low_first_bytes(as_unsigned(time))])
}

/// The identifier of an entry that is made at the time `timestamp_nanos`, in
/// nanoseconds.
pub fn generate_id(timestamp_nanos: i64) -> (r: String)
    ensures
        r@ == "audit_"@ + hex(id_seed(timestamp_nanos) as nat),
{
    let n: u64 = if timestamp_nanos >= 0 {
        timestamp_nanos as u64
    } else {
        let below: u64 = (-(timestamp_nanos + 1)) as u64;
        u64::MAX - below
    };
    assert(n == as_unsigned(timestamp_nanos));
    let mut bytes: Vec<u8> = Vec::new();
    bytes.push((n % 256) as u8);
    bytes.push((n / 0x100 % 256) as u8);
    bytes.push((n / 0x1_0000 % 256) as u8);
    bytes.push((n / 0x100_0000 % 256) as u8);
    bytes.push((n / 0x1_0000_0000 % 256) as u8);
    bytes.push((n / 0x100_0000_0000 % 256) as u8);
    bytes.push((n / 0x1_0000_0000_0000 % 256) as u8);
    bytes.push((n / 0x100_0000_0000_0000 % 256) as u8);
    assert(bytes@ =~= low_first_bytes(n as nat));
    let mut hasher = DefaultHasher::new();
    hasher.write(bytes.as_slice());
    assert(hasher@ =~= seq![bytes@]);
    audit_id(hasher.finish())
}

/// What a request to add an entry holds, with its metadata as text.
#[derive(Debug)]
pub struct CreateAuditLogInput {
    pub user_uuid: String,
    pub action: String,
    pub resource_type: Option<String>,
    pub resource_id: Option<String>,
    pub metadata: Option<String>,
    pub ip_address: Option<String>,
    pub user_agent: Option<String>,
}

/// The entry that a request adds, under the identifier `id` and made at the
/// time `created_at`: it holds what the request holds.
pub fn audit_entry(input: CreateAuditLogInput, id: String, created_at: i64) -> (r: AuditLog)
    ensures
        r.id == id,
        r.created_at == created_at,
        r.user_uuid == input.user_uuid,
        r.action == input.action,
        r.resource_type == input.resource_type,
        r.resource_id == input.resource_id,
        r.metadata == input.metadata,
        r.ip_address == input.ip_address,
        r.user_agent == input.user_agent,
{
    AuditLog {
        id,
        user_uuid: input.user_uuid,
        action: input.action,
        resource_type: input.resource_type,
        resource_id: input.resource_id,
        metadata: input.metadata,
        ip_address: input.ip_address,
        user_agent: input.user_agent,
        created_at,
    }
}

/// A page of the audit log, as the plugin answers it.
#[derive(Debug)]
pub struct AuditLogsResponse {
    pub logs: Vec<AuditLog>,
    pub total: i64,
    pub page: i32,
    pub limit: i32,
    pub pages: i32,
}

/// The answer for a page of a user's entries, of which the store holds
/// `total`.
pub fn user_page(window: &PageWindow, logs: Vec<AuditLog>, total: i64) -> (r: AuditLogsResponse)
    ensures
        r.logs == logs,
        r.total == total,
        r.page == window.spec_page(),
        r.limit == window.spec_limit(),
        r.pages == pages_for(total as int, window.spec_limit()),
{
    AuditLogsResponse {
        pages: window.page_count(total),
        page: window.page(),
        limit: window.limit(),
        total,
        logs,
    }
}

/// The number of entries as the answer reports it, or the largest `i64`
/// where they are more.
pub open spec fn counted(n: nat) -> int {
    if n > i64::MAX {
        i64::MAX as int
    } else {
        n as int
    }
}

/// The answer for a page of a filtered query: the total is the number of
/// entries that came back, as the store is not asked for more.
pub fn filtered_page(window: &PageWindow, logs: Vec<AuditLog>) -> (r: AuditLogsResponse)
    ensures
        r.logs == logs,
        r.total == counted(logs@.len()),
        r.page == window.spec_page(),
        r.limit == window.spec_limit(),
        r.pages == filtered_pages(logs@.len(), window.spec_page(), window.spec_limit()),
{
    let returned = logs.len();
    let total: i64 = if returned as u64 > i64::MAX as u64 {
        i64::MAX
    } else {
        returned as i64
    };
    AuditLogsResponse {
        pages: window.filtered_page_count(returned),
        page: window.page(),
        limit: window.limit(),
        total,
        logs,
    }
}

} // verus!
