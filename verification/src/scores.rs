//! The high-score ledger: a top-five table kept sorted by score, and the
//! `NAME SCORE` line format it is persisted in.

use vstd::prelude::*;
use vstd::string::StrSliceExecFns;

verus! {

/// One record of the table.
pub struct Highscore {
    pub name: String,
    pub score: i32,
}

/// Mathematical image of one record.
pub ghost struct HighscoreV {
    pub name: Seq<char>,
    pub score: int,
}

impl View for Highscore {
    type V = HighscoreV;

    open spec fn view(&self) -> HighscoreV {
        HighscoreV { name: self.name@, score: self.score as int }
    }
}

impl Highscore {
    /// A record with the given name and score.
    pub fn new(name: String, score: i32) -> (r: Highscore)
        ensures
            r@.name == name@,
            r@.score == score,
    {
        Highscore { name, score }
    }
}

/// The table as a sequence of record images.
pub open spec fn table_view(s: Seq<Highscore>) -> Seq<HighscoreV> {
    s.map(|i: int, h: Highscore| h@)
}

/// Scores never increase along the table.
pub open spec fn sorted_desc(s: Seq<HighscoreV>) -> bool {
    forall|i: int, j: int| 0 <= i < j < s.len() ==> s[i].score >= s[j].score
}

/// Where a score lands in the table: scanning from the end, the slot moves
/// left past every entry the new score strictly exceeds, so a tie goes
/// after the older entry.
pub open spec fn insert_pos(s: Seq<HighscoreV>, v: int) -> int
    decreases s.len(),
{
    if s.len() == 0 {
        0
    } else if v > s.last().score {
        insert_pos(s.drop_last(), v)
    } else {
        s.len() as int
    }
}

/// The table after a save: the record goes in at [`insert_pos`] and the
/// lowest entry is dropped if the table would exceed five records.
pub open spec fn saved_table(s: Seq<HighscoreV>, e: HighscoreV) -> Seq<HighscoreV> {
    let t = s.insert(insert_pos(s, e.score), e);
    if t.len() > 5 {
        t.drop_last()
    } else {
        t
    }
}

/// `insert_pos` lands inside the table, below only entries the new score
/// does not beat, and above only entries it beats.
pub proof fn lemma_insert_pos_props(s: Seq<HighscoreV>, v: int)
    ensures
        0 <= insert_pos(s, v) <= s.len(),
        forall|j: int| insert_pos(s, v) <= j < s.len() ==> v > s[j].score,
        insert_pos(s, v) > 0 ==> v <= s[insert_pos(s, v) - 1].score,
    decreases s.len(),
{
    if s.len() > 0 && v > s.last().score {
        lemma_insert_pos_props(s.drop_last(), v);
        assert(forall|j: int|
            0 <= j < s.len() - 1 ==> s.drop_last()[j] == s[j]);
    }
}

/// The law of the save path: inserting a record into a descending table of
/// at most five entries leaves the table descending and at most five long.
pub proof fn lemma_saved_table_sorted(s: Seq<HighscoreV>, e: HighscoreV)
    requires
        sorted_desc(s),
        s.len() <= 5,
    ensures
        sorted_desc(saved_table(s, e)),
        saved_table(s, e).len() <= 5,
{
    lemma_insert_pos_props(s, e.score);
    let p = insert_pos(s, e.score);
    let t = s.insert(p, e);
    s.insert_ensures(p, e);
    assert forall|i: int, j: int| 0 <= i < j < t.len() implies t[i].score >= t[j].score by {
        if i < p && j < p {
            assert(t[i] == s[i] && t[j] == s[j]);
        } else if i < p && j == p {
            assert(t[i] == s[i] && t[j] == e);
            assert(s[p - 1].score >= e.score);
            assert(i <= p - 1);
            assert(s[i].score >= s[p - 1].score);
        } else if i < p && j > p {
            assert(t[i] == s[i] && t[j] == s[j - 1]);
        } else if i == p {
            assert(t[i] == e && t[j] == s[j - 1]);
            assert(e.score > s[j - 1].score);
        } else {
            assert(t[i] == s[i - 1] && t[j] == s[j - 1]);
        }
    }
    if t.len() > 5 {
        assert(forall|i: int| 0 <= i < t.len() - 1 ==> t.drop_last()[i] == t[i]);
    }
}

/// Insert a record, keeping the table sorted descending and at most five
/// entries long: scan from the end, shift the slot left while the new
/// score beats the entry before it, insert there, and drop the last entry
/// if the table has grown past five.
pub fn insert_highscore(table: &mut Vec<Highscore>, entry: Highscore)
    requires
        sorted_desc(table_view(old(table)@)),
        old(table)@.len() <= 5,
    ensures
        table_view(final(table)@) == saved_table(table_view(old(table)@), entry@),
        sorted_desc(table_view(final(table)@)),
        final(table)@.len() <= 5,
{
    let ghost s = table_view(table@);
    proof {
        assert(s.take(table@.len() as int) =~= s);
    }
    let mut pos: usize = table.len();
    while pos != 0 && entry.score > table[pos - 1].score
        invariant
            pos <= table@.len(),
            s == table_view(table@),
            s.len() == table@.len(),
            insert_pos(s, entry@.score) == insert_pos(s.take(pos as int), entry@.score),
        decreases pos,
    {
        proof {
            let pre = s.take(pos as int);
            assert(pre.last() == s[pos - 1]);
            assert(pre.drop_last() =~= s.take(pos as int - 1));
        }
        pos = pos - 1;
    }
    proof {
        let p = s.take(pos as int);
        if pos == 0 {
            assert(insert_pos(p, entry@.score) == 0);
        } else {
            assert(p.last() == s[pos - 1]);
        }
        lemma_saved_table_sorted(s, entry@);
    }
    table.insert(pos, entry);
    assert(table_view(table@) =~= s.insert(pos as int, entry@));
    if table.len() > 5 {
        let ghost t = table_view(table@);
        table.pop();
        assert(table_view(table@) =~= t.drop_last());
    }
}

/// An ASCII decimal digit.
pub open spec fn is_digit(c: char) -> bool {
    '0' as int <= c as int <= '9' as int
}

/// The value of one digit character.
pub open spec fn digit_val(c: char) -> int {
    c as int - '0' as int
}

/// Every character of the sequence is a digit.
pub open spec fn all_digits(s: Seq<char>) -> bool {
    forall|i: int| 0 <= i < s.len() ==> is_digit(s[i])
}

/// The number the digit sequence denotes, most significant digit first.
pub open spec fn digits_val(s: Seq<char>) -> int
    decreases s.len(),
{
    if s.len() == 0 {
        0
    } else {
        10 * digits_val(s.drop_last()) + digit_val(s.last())
    }
}

/// Ten to the `n`th power.
pub open spec fn pow10(n: nat) -> int
    decreases n,
{
    if n == 0 {
        1
    } else {
        10 * pow10((n - 1) as nat)
    }
}

/// Powers of ten are positive and grow with the exponent.
pub proof fn lemma_pow10_increases(a: nat, b: nat)
    requires
        a <= b,
    ensures
        1 <= pow10(a) <= pow10(b),
    decreases b,
{
    if a < b {
        lemma_pow10_increases(a, (b - 1) as nat);
    } else if a == b && a > 0 {
        lemma_pow10_increases((a - 1) as nat, (b - 1) as nat);
    }
}

/// The index of the first space in the sequence, or its length if no
/// character is a space.
pub open spec fn first_space(s: Seq<char>) -> int
    decreases s.len(),
{
    if s.len() == 0 {
        0
    } else if s[0] == ' ' {
        0
    } else {
        1 + first_space(s.drop_first())
    }
}

/// `first_space` lands on a space unless there is none, and nothing before
/// it is a space.
pub proof fn lemma_first_space_props(s: Seq<char>)
    ensures
        0 <= first_space(s) <= s.len(),
        first_space(s) < s.len() ==> s[first_space(s)] == ' ',
        forall|j: int| 0 <= j < first_space(s) ==> s[j] != ' ',
    decreases s.len(),
{
    if s.len() > 0 && s[0] != ' ' {
        lemma_first_space_props(s.drop_first());
        assert forall|j: int| 0 <= j < first_space(s) implies s[j] != ' ' by {
            if j > 0 {
                assert(s.drop_first()[j - 1] == s[j]);
                assert(s.drop_first()[j - 1] != ' ');
            }
        }
    }
}

/// A line of the persisted table parses when it is a nonempty name without
/// spaces, one space, and one to nine decimal digits. Everything else —
/// a missing score, extra tokens, signs, non-digits, scores too long to
/// fit — is malformed, and a loader skips it.
pub open spec fn valid_line(s: Seq<char>) -> bool {
    let sp = first_space(s);
    &&& 0 < sp < s.len()
    &&& 1 <= s.len() - sp - 1 <= 9
    &&& all_digits(s.skip(sp + 1))
}

/// The record a valid line denotes.
pub open spec fn parsed_entry(s: Seq<char>) -> HighscoreV {
    HighscoreV { name: s.take(first_space(s)), score: digits_val(s.skip(first_space(s) + 1)) }
}

/// Parse one line of the persisted table, `NAME SCORE`. Returns the record
/// exactly when the line is [`valid_line`]; a malformed line gives `None`
/// so a loader can skip it and go on.
pub fn parse_highscore_line(line: &str) -> (r: Option<Highscore>)
    ensures
        r is Some <==> valid_line(line@),
        r matches Some(e) ==> e@ == parsed_entry(line@),
{
    let n = line.unicode_len();
    let mut sp: usize = 0;
    while sp < n && line.get_char(sp) != ' '
        invariant
            sp <= n,
            n == line@.len(),
            forall|j: int| 0 <= j < sp ==> line@[j] != ' ',
        decreases n - sp,
    {
        sp = sp + 1;
    }
    proof {
        lemma_first_space_props(line@);
    }
    assert(sp as int == first_space(line@));
    if sp == 0 || sp >= n || n - sp - 1 == 0 || n - sp - 1 > 9 {
        return None;
    }
    let start = sp + 1;
    let ghost s = line@;
    let mut acc: i32 = 0;
    let mut i = start;
    while i < n
        invariant
            start <= i <= n,
            start == sp + 1,
            0 < sp < n,
            sp as int == first_space(s),
            n == s.len(),
            s == line@,
            1 <= n - start <= 9,
            forall|j: int| start <= j < i ==> is_digit(s[j]),
            0 <= acc,
            acc == digits_val(s.subrange(start as int, i as int)),
            acc < pow10((i - start) as nat),
        decreases n - i,
    {
        let c = line.get_char(i);
        let code = c as u32;
        if code < 48 || code > 57 {
            proof {
                assert(s.skip(start as int)[i - start] == s[i as int]);
            }
            return None;
        }
        let d = (code - 48) as i32;
        proof {
            let k = (i - start) as nat;
            lemma_pow10_increases((k + 1) as nat, 9);
            assert(pow10(9) == 1000000000) by {
                reveal_with_fuel(pow10, 10);
            }
            assert(s.subrange(start as int, i + 1).drop_last() =~= s.subrange(
                start as int,
                i as int,
            ));
            assert(s.subrange(start as int, i + 1).last() == s[i as int]);
        }
        acc = acc * 10 + d;
        i = i + 1;
    }
    proof {
        assert(s.skip(start as int) =~= s.subrange(start as int, n as int));
        assert forall|k: int| 0 <= k < s.skip(start as int).len() implies is_digit(
            s.skip(start as int)[k],
        ) by {
            assert(s.skip(start as int)[k] == s[k + start]);
        }
    }
    let name = line.substring_char(0, sp).to_owned();
    proof {
        assert(s.subrange(0, sp as int) =~= s.take(sp as int));
    }
    Some(Highscore { name, score: acc })
}

} // verus!
