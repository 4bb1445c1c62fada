//! The compact texts that the calendar's tables are written in, read back
//! into tables, and the tracker of the steps of a build.

use vstd::prelude::*;
use std::time::Instant;
use crate::holiday::LegalHolidayEntry;
use crate::rabbyung::RabByungMonthData;

verus! {

/// The characters of a string, in order.
pub fn chars_of(s: &str) -> (chars: Vec<char>)
    ensures
        chars@ == s@,
{
    let mut chars: Vec<char> = Vec::new();
    for c in it: s.chars()
        invariant
            it.seq() == s@,
            chars@ == s@.subrange(0, it.index()),
    {
        chars.push(c);
        assert(chars@ =~= s@.subrange(0, it.index() + 1));
    }
    assert(s@.subrange(0, s@.len() as int) =~= s@);
    chars
}

/// The value of a decimal digit, if the character is one.
pub open spec fn digit_value(c: char) -> Option<int> {
    if c == '0' {
        Some(0)
    } else if c == '1' {
        Some(1)
    } else if c == '2' {
        Some(2)
    } else if c == '3' {
        Some(3)
    } else if c == '4' {
        Some(4)
    } else if c == '5' {
        Some(5)
    } else if c == '6' {
        Some(6)
    } else if c == '7' {
        Some(7)
    } else if c == '8' {
        Some(8)
    } else if c == '9' {
        Some(9)
    } else {
        None
    }
}

/// The number that the `n` characters of `s` from `from` on write in decimal
/// digits, if they are digits.
pub open spec fn number_at(s: Seq<char>, from: int, n: int) -> Option<int>
    decreases n,
{
    if n <= 0 {
        Some(0)
    } else {
        match (number_at(s, from, n - 1), digit_value(s[from + n - 1])) {
            (Some(high), Some(low)) => Some(high * 10 + low),
            _ => None,
        }
    }
}

/// The value of a decimal digit, if the character is one.
pub fn char_digit(c: char) -> (d: Option<u8>)
    ensures
        match d {
            Some(v) => digit_value(c) == Some(v as int) && v <= 9,
            None => digit_value(c) is None,
        },
{
    if c == '0' {
        Some(0)
    } else if c == '1' {
        Some(1)
    } else if c == '2' {
        Some(2)
    } else if c == '3' {
        Some(3)
    } else if c == '4' {
        Some(4)
    } else if c == '5' {
        Some(5)
    } else if c == '6' {
        Some(6)
    } else if c == '7' {
        Some(7)
    } else if c == '8' {
        Some(8)
    } else if c == '9' {
        Some(9)
    } else {
        None
    }
}

/// Reads a number of up to four decimal digits.
pub fn read_number(chars: &Vec<char>, from: usize, n: usize) -> (value: Option<u16>)
    requires
        n <= 4,
        from + n <= chars@.len(),
    ensures
        match value {
            Some(v) => number_at(chars@, from as int, n as int) == Some(v as int),
            None => number_at(chars@, from as int, n as int) is None,
        },
{
    let mut value: u16 = 0;
    let mut i: usize = 0;
    let length: usize = chars.len();
    while i < n
        invariant
            i <= n <= 4,
            from + n <= chars@.len(),
            chars@.len() == length,
            number_at(chars@, from as int, i as int) == Some(value as int),
            value < pow10(i as nat),
        decreases n - i,
    {
        proof {
            reveal_with_fuel(pow10, 5);
        }
        match char_digit(chars[from + i]) {
            Some(d) => {
                value = value * 10 + d as u16;
            },
            None => {
                proof {
                    lemma_number_fails(chars@, from as int, i as int + 1, n as int);
                }
                return None;
            },
        }
        i = i + 1;
    }
    Some(value)
}

/// Ten to the power `n`.
pub open spec fn pow10(n: nat) -> int
    decreases n,
{
    if n == 0 {
        1
    } else {
        10 * pow10((n - 1) as nat)
    }
}

/// A number whose first digits cannot be read cannot be read.
proof fn lemma_number_fails(s: Seq<char>, from: int, k: int, n: int)
    requires
        0 <= k <= n,
        number_at(s, from, k) is None,
    ensures
        number_at(s, from, n) is None,
    decreases n - k,
{
    if k < n {
        lemma_number_fails(s, from, k, n - 1);
    }
}

/// Record `k` of a text of decreed days: thirteen characters, of which the
/// first four write the year, the next two the month, the next two the day,
/// the ninth is `'0'` for a day worked, and the tenth writes the holiday.
pub open spec fn holiday_record(s: Seq<char>, k: int) -> Option<LegalHolidayEntry> {
    let at = 13 * k;
    match (
        number_at(s, at, 4),
        number_at(s, at + 4, 2),
        number_at(s, at + 6, 2),
        digit_value(s[at + 9]),
    ) {
        (Some(year), Some(month), Some(day), Some(index)) => Some(
            LegalHolidayEntry {
                year: year as u16,
                month: month as u8,
                day: day as u8,
                work: s[at + 8] == '0',
                index: index as u8,
            },
        ),
        _ => None,
    }
}

/// Reads a text of decreed days into a table, one entry for every thirteen
/// characters; what is left at the end is passed over. Nothing is returned
/// where a record does not hold digits where numbers are written.
pub fn parse_legal_holiday_data(data: &str) -> (table: Option<Vec<LegalHolidayEntry>>)
    ensures
        table is Some <==> forall|k: int| 0 <= k < data@.len() / 13 ==> holiday_record(data@, k) is Some,
        table is Some ==> table->0@.len() == data@.len() / 13,
        table is Some ==> forall|k: int|
            0 <= k < data@.len() / 13 ==> Some(#[trigger] table->0@[k]) == holiday_record(
                data@,
                k,
            ),
{
    let chars = chars_of(data);
    let count: usize = chars.len() / 13;
    let mut table: Vec<LegalHolidayEntry> = Vec::new();
    let mut k: usize = 0;
    while k < count
        invariant
            k <= count,
            count == chars@.len() / 13,
            chars@ == data@,
            table@.len() == k,
            forall|j: int| 0 <= j < k ==> Some(#[trigger] table@[j]) == holiday_record(chars@, j),
        decreases count - k,
    {
        let at: usize = 13 * k;
        let year = read_number(&chars, at, 4);
        let month = read_number(&chars, at + 4, 2);
        let day = read_number(&chars, at + 6, 2);
        let index = char_digit(chars[at + 9]);
        proof {
            reveal_with_fuel(number_at, 5);
        }
        match (year, month, day, index) {
            (Some(y), Some(m), Some(d), Some(i)) => {
                table.push(
                    LegalHolidayEntry {
                        year: y,
                        month: m as u8,
                        day: d as u8,
                        work: chars[at + 8] == '0',
                        index: i,
                    },
                );
            },
            _ => {
                assert(holiday_record(chars@, k as int) is None);
                return None;
            },
        }
        k = k + 1;
    }
    proof {
        assert forall|j: int| 0 <= j < data@.len() / 13 implies holiday_record(
            data@,
            j,
        ) is Some by {
            assert(Some(table@[j]) == holiday_record(chars@, j));
        }
    }
    Some(table)
}

/// The special days of one month as a text of them is read: the year, the
/// place of the month in the year, and the days.
pub struct MonthDays {
    pub year: int,
    pub month: int,
    pub days: Seq<isize>,
}

/// What an entry of a table of special days holds.
pub open spec fn month_days_of(entry: RabByungMonthData) -> MonthDays {
    MonthDays { year: entry.year as int, month: entry.month as int, days: entry.days@ }
}

/// The special day that a character writes: its place among the characters,
/// counted from `'S'`, so that `'T'` is day 1 and `'R'` the day 1 left out.
pub open spec fn day_of_char(c: char) -> isize {
    (c as u32 - 83) as isize
}

/// The count that a character writes: its place among the characters,
/// counted from `'0'`.
pub open spec fn count_of_char(c: char) -> int {
    c as u32 - 48
}

/// The special days written from `pos` on: at most `n` of them, ending
/// before a comma or at the end of the text.
pub open spec fn days_written(s: Seq<char>, pos: int, n: int) -> Seq<isize>
    decreases n,
{
    if n <= 0 || pos < 0 || pos >= s.len() || s[pos] == ',' {
        Seq::empty()
    } else {
        seq![day_of_char(s[pos])] + days_written(s, pos + 1, n - 1)
    }
}

/// The months written from `pos` on, where the next month written is at
/// place `month` of `year`: a month is written as the count of its special
/// days and then the days, and a comma ends a year. Nothing where a count
/// is written by a character before `'0'`, or a year or a place does not fit
/// an entry of a table.
pub open spec fn months_written(s: Seq<char>, pos: int, year: int, month: int) -> Option<
    Seq<MonthDays>,
>
    decreases (if 0 <= pos < s.len() {
        s.len() - pos
    } else {
        0
    }),
{
    if pos < 0 || pos >= s.len() {
        Some(Seq::empty())
    } else if s[pos] == ',' {
        months_written(s, pos + 1, year + 1, 0)
    } else if count_of_char(s[pos]) < 0 || year > 0xffff || month > 0xff {
        None
    } else {
        let days = days_written(s, pos + 1, count_of_char(s[pos]));
        match months_written(s, pos + 1 + days.len(), year, month + 1) {
            Some(rest) => Some(seq![MonthDays { year, month, days }] + rest),
            None => None,
        }
    }
}

/// The months `done` followed by the months `rest`, where there are any.
pub open spec fn months_then(done: Seq<MonthDays>, rest: Option<Seq<MonthDays>>) -> Option<
    Seq<MonthDays>,
> {
    match rest {
        Some(more) => Some(done + more),
        None => None,
    }
}

/// Reads a text of special days into a table. The text begins with the
/// month at place 11 of 1950.
pub fn parse_rab_byung_data(raw: &str) -> (table: Option<Vec<RabByungMonthData>>)
    ensures
        table is Some <==> months_written(raw@, 0, 1950, 11) is Some,
        table is Some ==> table->0@.map_values(|e: RabByungMonthData| month_days_of(e))
            == months_written(raw@, 0, 1950, 11)->0,
{
    let chars = chars_of(raw);
    let n: usize = chars.len();
    let mut table: Vec<RabByungMonthData> = Vec::new();
    let mut pos: usize = 0;
    let mut year: u128 = 1950;
    let mut month: u128 = 11;
    while pos < n
        invariant
            pos <= n,
            n == chars@.len(),
            chars@ == raw@,
            1950 <= year <= 1950 + pos,
            month <= 11 + pos,
            months_written(chars@, 0, 1950, 11) == months_then(
                table@.map_values(|e: RabByungMonthData| month_days_of(e)),
                months_written(chars@, pos as int, year as int, month as int),
            ),
        decreases n - pos,
    {
        let c: char = chars[pos];
        if c == ',' {
            year = year + 1;
            month = 0;
            pos = pos + 1;
        } else {
            let code: u32 = c as u32;
            if code < 48 || year > 0xffff || month > 0xff {
                return None;
            }
            let count: u32 = code - 48;
            assert(count == count_of_char(c));
            let mut days: Vec<isize> = Vec::new();
            let mut at: usize = pos + 1;
            let ghost start = pos as int + 1;
            while at < n && days.len() < count as usize && chars[at] != ','
                invariant
                    pos < at <= n,
                    n == chars@.len(),
                    start == pos + 1,
                    at == start + days@.len(),
                    days@.len() <= count,
                    days_written(chars@, start, count as int) == days@ + days_written(
                        chars@,
                        at as int,
                        count - days@.len(),
                    ),
                decreases n - at,
            {
                let value: isize = ((chars[at] as u32) as i64 - 83) as isize;
                assert(value == day_of_char(chars@[at as int]));
                proof {
                    let rest = days_written(chars@, at as int + 1, count - days@.len() - 1);
                    assert(days@ + (seq![day_of_char(chars@[at as int])] + rest) =~= days@.push(
                        value,
                    ) + rest);
                }
                days.push(value);
                at = at + 1;
            }
            proof {
                assert(days_written(chars@, at as int, count - days@.len()) =~= Seq::<
                    isize,
                >::empty());
                assert(days@ + Seq::<isize>::empty() =~= days@);
                let done = table@.map_values(|e: RabByungMonthData| month_days_of(e));
                let this = MonthDays { year: year as int, month: month as int, days: days@ };
                let rest = months_written(chars@, at as int, year as int, month + 1);
                if rest is Some {
                    assert(done + (seq![this] + rest->0) =~= done.push(this) + rest->0);
                }
            }
            let ghost before = table@;
            let entry = RabByungMonthData { year: year as u16, month: month as u8, days };
            table.push(entry);
            proof {
                assert(table@.map_values(|e: RabByungMonthData| month_days_of(e)) =~= before.map_values(
                    |e: RabByungMonthData| month_days_of(e),
                ).push(month_days_of(table@[table@.len() - 1])));
            }
            month = month + 1;
            pos = at;
        }
    }
    proof {
        assert(table@.map_values(|e: RabByungMonthData| month_days_of(e)) + Seq::<
            MonthDays,
        >::empty() =~= table@.map_values(|e: RabByungMonthData| month_days_of(e)));
    }
    Some(table)
}

/// The place of a character in an alphabet, from 0, or the length of the
/// alphabet if it is not in it.
pub open spec fn place_in(alphabet: Seq<char>, c: char, from: int) -> int
    decreases alphabet.len() - from,
{
    if from < 0 || from >= alphabet.len() {
        alphabet.len() as int
    } else if alphabet[from] == c {
        from
    } else {
        place_in(alphabet, c, from + 1)
    }
}

/// The number that pair `k` of a text writes in an alphabet: the place of its
/// first character times 64 and the place of its second.
pub open spec fn pair_value(alphabet: Seq<char>, text: Seq<char>, k: int) -> int {
    place_in(alphabet, text[2 * k], 0) * 64 + place_in(alphabet, text[2 * k + 1], 0)
}

/// The sum of the numbers that the first `k` pairs of a text write.
pub open spec fn running_total(alphabet: Seq<char>, text: Seq<char>, k: int) -> int
    decreases k,
{
    if k <= 0 {
        0
    } else {
        running_total(alphabet, text, k - 1) + pair_value(alphabet, text, k - 1)
    }
}

/// Whether a text of pairs can be read in an alphabet: its length is even,
/// its characters are of the alphabet, and its sums fit a signed number of 32
/// bits.
pub open spec fn readable_pairs(alphabet: Seq<char>, text: Seq<char>) -> bool {
    &&& text.len() % 2 == 0
    &&& forall|i: int|
        0 <= i < text.len() ==> place_in(alphabet, #[trigger] text[i], 0) < alphabet.len()
    &&& forall|k: int|
        1 <= k <= text.len() / 2 ==> #[trigger] running_total(alphabet, text, k)
            <= 0x7fff_ffff
}

/// The place of a character in an alphabet.
pub fn find_place(alphabet: &Vec<char>, c: char) -> (place: usize)
    ensures
        place == place_in(alphabet@, c, 0),
        place <= alphabet@.len(),
{
    let mut i: usize = 0;
    while i < alphabet.len()
        invariant
            i <= alphabet@.len(),
            place_in(alphabet@, c, 0) == place_in(alphabet@, c, i as int),
        decreases alphabet@.len() - i,
    {
        if alphabet[i] == c {
            return i;
        }
        i = i + 1;
    }
    i
}

/// Reads a text of pairs into the sums of the numbers that its pairs write,
/// one sum after each pair. Nothing is returned for a text that cannot be
/// read.
pub fn parse_leap_month_text(alphabet: &str, text: &str) -> (sums: Option<Vec<isize>>)
    requires
        alphabet@.len() <= 1_000_000,
    ensures
        sums is Some <==> readable_pairs(alphabet@, text@),
        sums is Some ==> sums->0@.len() == text@.len() / 2,
        sums is Some ==> forall|k: int|
            0 <= k < text@.len() / 2 ==> (#[trigger] sums->0@[k]) == running_total(
                alphabet@,
                text@,
                k + 1,
            ),
{
    let letters = chars_of(alphabet);
    let chars = chars_of(text);
    let n: usize = chars.len();
    if n % 2 != 0 {
        return None;
    }
    let size: usize = letters.len();
    let mut sums: Vec<isize> = Vec::new();
    let mut total: i64 = 0;
    let mut k: usize = 0;
    while k < n / 2
        invariant
            k <= n / 2,
            n == chars@.len(),
            n % 2 == 0,
            chars@ == text@,
            letters@ == alphabet@,
            size == letters@.len(),
            size <= 1_000_000,
            sums@.len() == k,
            total == running_total(letters@, chars@, k as int),
            0 <= total <= 0x7fff_ffff,
            forall|i: int|
                0 <= i < 2 * k ==> place_in(letters@, #[trigger] chars@[i], 0) < letters@.len(),
            forall|j: int|
                1 <= j <= k ==> #[trigger] running_total(letters@, chars@, j)
                    <= 0x7fff_ffff,
            forall|j: int|
                0 <= j < k ==> (#[trigger] sums@[j]) == running_total(letters@, chars@, j + 1),
        decreases n / 2 - k,
    {
        let first: usize = find_place(&letters, chars[2 * k]);
        let second: usize = find_place(&letters, chars[2 * k + 1]);
        if first >= size {
            assert(!(place_in(letters@, chars@[2 * k as int], 0) < letters@.len()));
            return None;
        }
        if second >= size {
            assert(!(place_in(letters@, chars@[2 * k + 1], 0) < letters@.len()));
            return None;
        }
        let value: i64 = first as i64 * 64 + second as i64;
        assert(value == pair_value(letters@, chars@, k as int));
        if total + value > 0x7fff_ffff {
            assert(running_total(letters@, chars@, k + 1) > 0x7fff_ffff);
            return None;
        }
        total = total + value;
        sums.push(total as isize);
        k = k + 1;
    }
    Some(sums)
}

/// The value of a hexadecimal digit, if the character is one.
pub open spec fn hex_value(c: char) -> Option<int> {
    if c == '0' {
        Some(0)
    } else if c == '1' {
        Some(1)
    } else if c == '2' {
        Some(2)
    } else if c == '3' {
        Some(3)
    } else if c == '4' {
        Some(4)
    } else if c == '5' {
        Some(5)
    } else if c == '6' {
        Some(6)
    } else if c == '7' {
        Some(7)
    } else if c == '8' {
        Some(8)
    } else if c == '9' {
        Some(9)
    } else if c == 'a' {
        Some(10)
    } else if c == 'b' {
        Some(11)
    } else if c == 'c' {
        Some(12)
    } else if c == 'd' {
        Some(13)
    } else if c == 'e' {
        Some(14)
    } else if c == 'f' {
        Some(15)
    } else if c == 'A' {
        Some(10)
    } else if c == 'B' {
        Some(11)
    } else if c == 'C' {
        Some(12)
    } else if c == 'D' {
        Some(13)
    } else if c == 'E' {
        Some(14)
    } else if c == 'F' {
        Some(15)
    } else {
        None
    }
}

/// The value of a hexadecimal digit, if the character is one.
pub fn char_hex(c: char) -> (d: Option<u8>)
    ensures
        match d {
            Some(v) => hex_value(c) == Some(v as int) && v <= 15,
            None => hex_value(c) is None,
        },
{
    if c == '0' {
        Some(0)
    } else if c == '1' {
        Some(1)
    } else if c == '2' {
        Some(2)
    } else if c == '3' {
        Some(3)
    } else if c == '4' {
        Some(4)
    } else if c == '5' {
        Some(5)
    } else if c == '6' {
        Some(6)
    } else if c == '7' {
        Some(7)
    } else if c == '8' {
        Some(8)
    } else if c == '9' {
        Some(9)
    } else if c == 'a' {
        Some(10)
    } else if c == 'b' {
        Some(11)
    } else if c == 'c' {
        Some(12)
    } else if c == 'd' {
        Some(13)
    } else if c == 'e' {
        Some(14)
    } else if c == 'f' {
        Some(15)
    } else if c == 'A' {
        Some(10)
    } else if c == 'B' {
        Some(11)
    } else if c == 'C' {
        Some(12)
    } else if c == 'D' {
        Some(13)
    } else if c == 'E' {
        Some(14)
    } else if c == 'F' {
        Some(15)
    } else {
        None
    }
}

/// The byte that two characters write in hexadecimal digits; a plus sign may
/// stand for the first digit.
pub open spec fn hex_pair(a: char, b: char) -> Option<u8> {
    match (hex_value(a), hex_value(b)) {
        (Some(high), Some(low)) => Some((high * 16 + low) as u8),
        (None, Some(low)) => if a == '+' {
            Some(low as u8)
        } else {
            None
        },
        _ => None,
    }
}

/// The byte that two characters write in hexadecimal digits.
pub fn read_hex_pair(a: char, b: char) -> (byte: Option<u8>)
    ensures
        byte == hex_pair(a, b),
{
    match (char_hex(a), char_hex(b)) {
        (Some(high), Some(low)) => Some(high * 16 + low),
        (None, Some(low)) => {
            if a == '+' {
                Some(low)
            } else {
                None
            }
        },
        _ => None,
    }
}

/// The bytes that the pairs of characters from `from` on write, a pair that
/// writes none and a character left over at the end passed over.
pub open spec fn bytes_written(s: Seq<char>, from: int) -> Seq<u8>
    decreases s.len() - from,
{
    if from < 0 || from + 2 > s.len() {
        Seq::empty()
    } else {
        match hex_pair(s[from], s[from + 1]) {
            Some(byte) => seq![byte] + bytes_written(s, from + 2),
            None => bytes_written(s, from + 2),
        }
    }
}

/// Whether every character is of the first 128.
pub open spec fn all_ascii(s: Seq<char>) -> bool {
    forall|i: int| 0 <= i < s.len() ==> (#[trigger] s[i]) as u32 <= 127
}

/// What a segment of the text of the day gods holds, if it holds anything:
/// the day of the cycle of sixty that its first two characters write, and the
/// gods of the day that the pairs after them write. It holds nothing where
/// it is shorter than two characters or not of the first 128 characters,
/// where its day is not written or not below 60, and where no god is written.
pub open spec fn day_gods_of(segment: Seq<char>) -> Option<(u8, Seq<u8>)> {
    if segment.len() < 2 || !all_ascii(segment) {
        None
    } else {
        match hex_pair(segment[0], segment[1]) {
            Some(day) => if day < 60 && bytes_written(segment, 2).len() > 0 {
                Some((day, bytes_written(segment, 2)))
            } else {
                None
            },
            None => None,
        }
    }
}

/// Reads a segment of the text of the day gods.
pub fn parse_day_gods_segment(segment: &str) -> (entry: Option<(u8, Vec<u8>)>)
    ensures
        match entry {
            Some(e) => day_gods_of(segment@) == Some((e.0, e.1@)),
            None => day_gods_of(segment@) is None,
        },
{
    let chars = chars_of(segment);
    let n: usize = chars.len();
    if n < 2 {
        return None;
    }
    let mut i: usize = 0;
    while i < n
        invariant
            i <= n,
            n == chars@.len(),
            chars@ == segment@,
            forall|k: int| 0 <= k < i ==> (#[trigger] chars@[k]) as u32 <= 127,
        decreases n - i,
    {
        if chars[i] as u32 > 127 {
            assert(!all_ascii(segment@)) by {
                assert(segment@[i as int] as u32 > 127);
            }
            return None;
        }
        i = i + 1;
    }
    let day: u8 = match read_hex_pair(chars[0], chars[1]) {
        Some(day) => day,
        None => {
            return None;
        },
    };
    if day >= 60 {
        return None;
    }
    let mut data: Vec<u8> = Vec::new();
    let mut at: usize = 2;
    while n - at >= 2
        invariant
            2 <= at <= n,
            n == chars@.len(),
            bytes_written(chars@, 2) == data@ + bytes_written(chars@, at as int),
        decreases n - at,
    {
        proof {
            let rest = bytes_written(chars@, at + 2);
            match hex_pair(chars@[at as int], chars@[at + 1]) {
                Some(byte) => {
                    assert(data@ + (seq![byte] + rest) =~= data@.push(byte) + rest);
                },
                None => {},
            }
        }
        match read_hex_pair(chars[at], chars[at + 1]) {
            Some(byte) => {
                data.push(byte);
            },
            None => {},
        }
        at = at + 2;
    }
    assert(data@ + Seq::<u8>::empty() =~= data@);
    if data.len() == 0 {
        return None;
    }
    Some((day, data))
}

/// A point in time of the system clock.
#[verifier::external_type_specification]
#[verifier::external_body]
pub struct ExInstant(Instant);

/// `Instant::now`: the time at which it is called, of which nothing is
/// known beforehand.
#[verifier::external_body]
fn now() -> Instant {
    Instant::now()
}

/// Follows the stages of a build. It reports nothing: a stage that starts or
/// ends leaves it as it is.
pub struct ProgressTracker {
    start_time: Instant,
    current_stage: Option<String>,
}

impl ProgressTracker {
    /// The stage that the tracker is in, if it has noted one.
    pub closed spec fn stage(&self) -> Option<String> {
        self.current_stage
    }

    /// A tracker that starts now, in no stage.
    pub fn new() -> (tracker: Self)
        ensures
            tracker.stage() is None,
    {
        Self { start_time: now(), current_stage: None }
    }

    /// A stage begins. The tracker does not note it.
    pub fn start_stage(&mut self, name: &str)
        ensures
            final(self).stage() == old(self).stage(),
    {
    }

    /// The stage ends.
    pub fn complete_stage(&mut self)
        ensures
            final(self).stage() == old(self).stage(),
    {
    }

    /// `current` of `total` steps of `operation` are done.
    pub fn update_progress(&self, current: usize, total: usize, operation: &str) {
    }

    /// The build is over.
    pub fn finish_build(&self) {
    }
}

} // verus!
