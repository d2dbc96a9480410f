//! Delimited-text export of the final account snapshot.
//!
//! The text of every field is rendered by the verified functions of
//! [`crate::render`]; only the joining of one record's fields into a
//! line is delegated to the `csv` crate, behind a trusted wrapper
//! whose contract states the join exactly for fields that carry no
//! delimiter, quote or terminator characters.

use vstd::prelude::*;
use vstd::string::StringExecFns;

use crate::accounts::{Account, Accounts};
use crate::render::{
    amount_string, bool_string, client_string, spec_amount_str, spec_bool_str, spec_digits,
};

verus! {

/// A character that never forces quoting in a delimited record.
pub open spec fn plain_char(c: char) -> bool {
    c != ',' && c != '"' && c != '\n' && c != '\r'
}

/// All characters of `s` are plain.
pub open spec fn all_plain(s: Seq<char>) -> bool {
    forall|i: int| 0 <= i < s.len() ==> plain_char(#[trigger] s[i])
}

/// A non-empty field that a delimited record writes verbatim.
pub open spec fn plain_field(s: Seq<char>) -> bool {
    s.len() > 0 && all_plain(s)
}

/// One record line: the fields joined by commas, ended by a newline.
pub open spec fn spec_csv_line(fields: Seq<Seq<char>>) -> Seq<char>
    decreases fields.len(),
{
    if fields.len() == 0 {
        seq!['\n']
    } else if fields.len() == 1 {
        fields[0] + seq!['\n']
    } else {
        fields[0] + seq![','] + spec_csv_line(fields.drop_first())
    }
}

/// Relies on `csv::Writer::write_record` under the crate's default
/// configuration: each field free of the delimiter (`,`), the quote
/// (`"`) and the terminator bytes (`\n`, `\r`) is written verbatim,
/// fields are joined by the delimiter, and the record ends with `\n`.
#[verifier::external_body]
fn csv_record_line(fields: &Vec<String>) -> (r: String)
    requires
        fields@.len() > 0,
        forall|i: int| 0 <= i < fields@.len() ==> plain_field(#[trigger] fields@[i]@),
    ensures
        r@ == spec_csv_line(fields@.map_values(|s: String| s@)),
{
    let mut wtr = csv::Writer::from_writer(Vec::new());
    let _ = wtr.write_record(fields.iter());
    let bytes = wtr.into_inner().unwrap_or_default();
    String::from_utf8(bytes).unwrap_or_default()
}

/// Plainness survives concatenation.
proof fn lemma_all_plain_concat(a: Seq<char>, b: Seq<char>)
    requires
        all_plain(a),
        all_plain(b),
    ensures
        all_plain(a + b),
{
    assert forall|i: int| 0 <= i < (a + b).len() implies plain_char(#[trigger] (a + b)[i]) by {
        if i < a.len() {
            assert((a + b)[i] == a[i]);
        } else {
            assert((a + b)[i] == b[i - a.len()]);
        }
    }
}

/// Decimal digit runs are plain fields.
proof fn lemma_digits_plain(n: nat)
    ensures
        plain_field(spec_digits(n)),
    decreases n,
{
    if n >= 10 {
        lemma_digits_plain(n / 10);
        lemma_all_plain_concat(
            spec_digits(n / 10),
            seq![crate::render::digit_char((n % 10) as int)],
        );
    }
}

/// A prefix of a plain sequence is plain, so trimming keeps plainness.
proof fn lemma_trim_plain(s: Seq<char>)
    requires
        s.len() > 0,
        all_plain(s),
    ensures
        plain_field(crate::render::trim_trailing_zeros(s)),
    decreases s.len(),
{
    if s.len() > 1 && s.last() == '0' {
        assert(all_plain(s.drop_last())) by {
            assert forall|i: int|
                0 <= i < s.drop_last().len() implies plain_char(#[trigger] s.drop_last()[i]) by {
                assert(s.drop_last()[i] == s[i]);
            }
        }
        lemma_trim_plain(s.drop_last());
    }
}

/// Rendered amounts are plain fields.
proof fn lemma_amount_plain(v: int)
    ensures
        plain_field(spec_amount_str(v)),
{
    let mag = if v < 0 {
        -v
    } else {
        v
    };
    let sign: Seq<char> = if v < 0 {
        seq!['-']
    } else {
        Seq::empty()
    };
    let frac = crate::render::trim_trailing_zeros(crate::render::frac_digits4(mag % 10000));
    lemma_digits_plain((mag / 10000) as nat);
    lemma_trim_plain(crate::render::frac_digits4(mag % 10000));
    lemma_all_plain_concat(sign, spec_digits((mag / 10000) as nat));
    lemma_all_plain_concat(sign + spec_digits((mag / 10000) as nat), seq!['.']);
    lemma_all_plain_concat(sign + spec_digits((mag / 10000) as nat) + seq!['.'], frac);
}

/// Rendered lock flags are plain fields.
proof fn lemma_bool_plain(b: bool)
    ensures
        plain_field(spec_bool_str(b)),
{
    reveal_strlit("true");
    reveal_strlit("false");
}

/// The header line of the export.
pub open spec fn spec_header() -> Seq<char> {
    spec_csv_line(seq!["client"@, "available"@, "held"@, "total"@, "locked"@])
}

/// The exported line of one account.
pub open spec fn spec_account_row(client: u16, a: Account) -> Seq<char> {
    spec_csv_line(
        seq![
            spec_digits(client as nat),
            spec_amount_str(a.available as int),
            spec_amount_str(a.held as int),
            spec_amount_str(a.total as int),
            spec_bool_str(a.locked),
        ],
    )
}

/// The exported lines of the accounts named by `order`, in order.
pub open spec fn spec_rows(order: Seq<u16>, accounts: Map<u16, Account>) -> Seq<char>
    decreases order.len(),
{
    if order.len() == 0 {
        Seq::empty()
    } else {
        spec_rows(order.drop_last(), accounts) + spec_account_row(
            order.last(),
            accounts[order.last()],
        )
    }
}

/// The whole export: header, then one row per client in
/// first-reference order.
pub open spec fn spec_export_csv(ledger: Accounts) -> Seq<char> {
    spec_header() + spec_rows(ledger.client_order(), ledger.accounts())
}

impl Accounts {
    /// Render all accounts as delimited text with the header
    /// `client,available,held,total,locked`, one row per client in
    /// first-reference order.
    pub fn output_as_csv(&self) -> (r: String)
        requires
            self.wf(),
        ensures
            r@ == spec_export_csv(*self),
    {
        let mut header: Vec<String> = Vec::new();
        header.push("client".to_owned());
        header.push("available".to_owned());
        header.push("held".to_owned());
        header.push("total".to_owned());
        header.push("locked".to_owned());
        proof {
            reveal_strlit("client");
            reveal_strlit("available");
            reveal_strlit("held");
            reveal_strlit("total");
            reveal_strlit("locked");
            assert(header@.map_values(|s: String| s@) =~= seq![
                "client"@,
                "available"@,
                "held"@,
                "total"@,
                "locked"@,
            ]);
        }
        let mut out = csv_record_line(&header);
        let rows = self.export();
        let order = Ghost(self.client_order());
        let mut idx: usize = 0;
        proof {
            assert(order@.take(0) =~= Seq::<u16>::empty());
        }
        while idx < rows.len()
            invariant
                self.wf(),
                order@ == self.client_order(),
                rows@.len() == order@.len(),
                forall|i: int|
                    0 <= i < rows@.len() ==> #[trigger] rows@[i] == (
                        order@[i],
                        self.accounts()[order@[i]],
                    ),
                idx <= rows@.len(),
                out@ == spec_header() + spec_rows(order@.take(idx as int), self.accounts()),
            decreases rows@.len() - idx,
        {
            let (client, account) = rows[idx];
            let mut row: Vec<String> = Vec::new();
            row.push(client_string(client));
            row.push(amount_string(account.available));
            row.push(amount_string(account.held));
            row.push(amount_string(account.total));
            row.push(bool_string(account.locked).to_owned());
            proof {
                lemma_digits_plain(client as nat);
                lemma_amount_plain(account.available as int);
                lemma_amount_plain(account.held as int);
                lemma_amount_plain(account.total as int);
                lemma_bool_plain(account.locked);
                assert(row@.map_values(|s: String| s@) =~= seq![
                    spec_digits(client as nat),
                    spec_amount_str(account.available as int),
                    spec_amount_str(account.held as int),
                    spec_amount_str(account.total as int),
                    spec_bool_str(account.locked),
                ]);
            }
            let line = csv_record_line(&row);
            out.append(line.as_str());
            proof {
                let upto = order@.take(idx as int + 1);
                assert(upto.drop_last() =~= order@.take(idx as int));
                assert(upto.last() == order@[idx as int]);
                assert(out@ =~= spec_header() + spec_rows(upto, self.accounts()));
            }
            idx += 1;
        }
        proof {
            assert(order@.take(order@.len() as int) =~= order@);
        }
        out
    }
}

} // verus!
