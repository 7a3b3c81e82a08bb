//! The partition catalogue: the lines of a partition listing, read into records.
//!
//! A line holds its fields in a fixed order, separated by colons: number, start,
//! end, size, filesystem, name, flags. Only the number and the filesystem are
//! required. The signature tokens of a partition are looked for in its whole
//! line; how large a partition is shows in the unit of its size field alone, not
//! in the units of its offsets.

use crate::probe::text_views;
use crate::text::{
    chars_of, contains, cut, digit_of, digit_value, field, lemma_field_start_bounds, mentions,
    number_u8, parse_u8,
};
use vstd::prelude::*;

verus! {

/// The token of an EFI system partition.
pub const EFI_MARK: &'static str = "EF00";

/// The token of a BIOS boot partition.
pub const BIOS_MARK: &'static str = "EF02";

/// The token of a partition under LVM.
pub const LVM_MARK: &'static str = "8E00";

/// The unit of the size of the larger member of a root and boot pair.
pub const LARGE_MARK: &'static str = "GiB";

/// The unit of the size of the smaller member of a root and boot pair.
pub const SMALL_MARK: &'static str = "MiB";

/// Why a line is no partition record.
#[derive(Debug, Clone, Copy, PartialEq, Eq, Structural)]
pub enum LineError {
    /// The line has no filesystem field: fewer than five fields.
    TooFewFields,
    /// The first field is no number from 0 to 255.
    BadNumber,
}

/// The first line of a listing that is no partition record, and why.
#[derive(Debug, Clone, Copy, PartialEq, Eq, Structural)]
pub struct CatalogError {
    pub line: usize,
    pub reason: LineError,
}

/// A partition record as the contracts see it.
pub struct RecordView {
    pub number: u8,
    pub size: Seq<char>,
    pub filesystem: Seq<char>,
    pub name: Seq<char>,
    pub flags: Seq<char>,
    pub line: Seq<char>,
}

/// A partition of the disk under inspection.
#[derive(Debug, Clone, PartialEq, Eq)]
pub struct PartitionRecord {
    pub number: u8,
    pub size: String,
    pub filesystem: String,
    pub name: String,
    pub flags: String,
    pub line: String,
}

impl View for PartitionRecord {
    type V = RecordView;

    open spec fn view(&self) -> RecordView {
        RecordView {
            number: self.number,
            size: self.size@,
            filesystem: self.filesystem@,
            name: self.name@,
            flags: self.flags@,
            line: self.line@,
        }
    }
}

/// Field number `index` of a line, or nothing where the line ends before it.
pub open spec fn field_or_empty(line: Seq<char>, index: nat) -> Seq<char> {
    match field(line, ':', index) {
        Some(f) => f,
        None => Seq::empty(),
    }
}

/// What is wrong with a line, if anything.
pub open spec fn line_error(line: Seq<char>) -> Option<LineError> {
    if field(line, ':', 4) is None {
        Some(LineError::TooFewFields)
    } else if number_u8(field_or_empty(line, 0)) is None {
        Some(LineError::BadNumber)
    } else {
        None
    }
}

/// The record that a line without an error holds.
pub open spec fn record_of(line: Seq<char>) -> RecordView {
    RecordView {
        number: number_u8(field_or_empty(line, 0)).unwrap(),
        size: field_or_empty(line, 3),
        filesystem: field_or_empty(line, 4),
        name: field_or_empty(line, 5),
        flags: field_or_empty(line, 6),
        line: line,
    }
}

impl RecordView {
    /// The record is what its line holds.
    pub open spec fn wf(self) -> bool {
        line_error(self.line) is None && self == record_of(self.line)
    }
}

/// The records of a catalogue as the contracts see them.
pub open spec fn views(catalog: Seq<PartitionRecord>) -> Seq<RecordView> {
    Seq::new(catalog.len(), |i: int| catalog[i]@)
}

/// Every record of the catalogue is what its line holds.
pub open spec fn catalog_wf(records: Seq<RecordView>) -> bool {
    forall|i: int| 0 <= i < records.len() ==> (#[trigger] records[i]).wf()
}

/// Field number `index` of a line as a text of its own; empty where the line ends
/// before it.
fn field_text(line: &str, index: usize) -> (t: String)
    ensures
        t@ == field_or_empty(line@, index as nat),
{
    match cut(line, ':', index) {
        Some(f) => String::from_str(f),
        None => String::new(),
    }
}

/// The number of the partition that a line describes: its first field.
pub fn get_partition_number_detail(source: &str) -> (number: u8)
    requires
        number_u8(field_or_empty(source@, 0)) is Some,
    ensures
        Some(number) == number_u8(field_or_empty(source@, 0)),
{
    let first = field_text(source, 0);
    match parse_u8(first.as_str()) {
        Some(n) => n,
        None => 0,
    }
}

/// The filesystem of the partition that a line describes: its fifth field.
pub fn get_partition_filesystem_detail(source: &str) -> (filesystem: String)
    requires
        field(source@, ':', 4) is Some,
    ensures
        Some(filesystem@) == field(source@, ':', 4),
{
    field_text(source, 4)
}

/// Reads one line of a partition listing.
pub fn parse_partition(line: &str) -> (parsed: Result<PartitionRecord, LineError>)
    ensures
        match parsed {
            Ok(record) => line_error(line@) is None && record@ == record_of(line@),
            Err(reason) => line_error(line@) == Some(reason),
        },
{
    if cut(line, ':', 4).is_none() {
        return Err(LineError::TooFewFields);
    }
    let first = field_text(line, 0);
    let number = match parse_u8(first.as_str()) {
        Some(n) => n,
        None => {
            return Err(LineError::BadNumber);
        },
    };
    Ok(
        PartitionRecord {
            number,
            size: field_text(line, 3),
            filesystem: field_text(line, 4),
            name: field_text(line, 5),
            flags: field_text(line, 6),
            line: String::from_str(line),
        },
    )
}

/// The first line with an error, if any line has one.
pub open spec fn first_error(lines: Seq<String>, from: int) -> Option<CatalogError>
    decreases lines.len() - from,
{
    if from < 0 || from >= lines.len() {
        None
    } else {
        match line_error(lines[from]@) {
            Some(reason) => Some(CatalogError { line: from as usize, reason }),
            None => first_error(lines, from + 1),
        }
    }
}

/// Reads a partition listing, one line per partition, in the order of the lines.
/// One line with an error spoils the whole listing: the first such line is reported.
pub fn parse_catalog(lines: &Vec<String>) -> (parsed: Result<Vec<PartitionRecord>, CatalogError>)
    ensures
        match parsed {
            Ok(catalog) => {
                &&& first_error(lines@, 0) is None
                &&& catalog@.len() == lines@.len()
                &&& forall|i: int|
                    0 <= i < lines@.len() ==> (#[trigger] catalog@[i])@ == record_of(lines@[i]@)
                &&& catalog_wf(views(catalog@))
            },
            Err(e) => first_error(lines@, 0) == Some(e),
        },
{
    let mut catalog: Vec<PartitionRecord> = Vec::new();
    let mut i: usize = 0;
    while i < lines.len()
        invariant
            i <= lines.len(),
            catalog@.len() == i,
            first_error(lines@, 0) == first_error(lines@, i as int),
            forall|k: int| 0 <= k < i ==> line_error(lines@[k]@) is None,
            forall|k: int| 0 <= k < i ==> (#[trigger] catalog@[k])@ == record_of(lines@[k]@),
        decreases lines.len() - i,
    {
        match parse_partition(lines[i].as_str()) {
            Ok(record) => {
                catalog.push(record);
            },
            Err(reason) => {
                return Err(CatalogError { line: i, reason });
            },
        }
        i += 1;
    }
    assert(catalog_wf(views(catalog@))) by {
        assert forall|k: int| 0 <= k < views(catalog@).len() implies (#[trigger] views(
            catalog@,
        )[k]).wf() by {
            assert(catalog@[k]@ == record_of(lines@[k]@));
        }
    }
    Ok(catalog)
}

/// A record carries the token.
pub open spec fn marked(record: RecordView, token: Seq<char>) -> bool {
    mentions(record.line, token)
}

/// A record is neither an EFI system partition nor a BIOS boot partition.
pub open spec fn plain(record: RecordView) -> bool {
    !marked(record, EFI_MARK@) && !marked(record, BIOS_MARK@)
}

/// What a search of the catalogue leaves out.
#[derive(Debug, Clone, Copy, PartialEq, Eq, Structural)]
pub enum Scope {
    /// Nothing: every record is looked at.
    All,
    /// The EFI system partition and the BIOS boot partition.
    Plain,
    /// Those two, and the partitions under LVM.
    Unmanaged,
}

/// A record is within the scope of a search.
pub open spec fn within(record: RecordView, scope: Scope) -> bool {
    match scope {
        Scope::All => true,
        Scope::Plain => plain(record),
        Scope::Unmanaged => plain(record) && !marked(record, LVM_MARK@),
    }
}

/// A search accepts a record: it is within the scope and carries the token.
pub open spec fn accepts(record: RecordView, scope: Scope, token: Seq<char>) -> bool {
    within(record, scope) && marked(record, token)
}

/// The position of the first record at or after `from` that a search accepts.
pub open spec fn first_from(records: Seq<RecordView>, scope: Scope, token: Seq<char>, from: int)
    -> Option<int>
    decreases records.len() - from,
{
    if from < 0 || from >= records.len() {
        None
    } else if accepts(records[from], scope, token) {
        Some(from)
    } else {
        first_from(records, scope, token, from + 1)
    }
}

/// The position of the first record that a search accepts.
pub open spec fn first_accepted(records: Seq<RecordView>, scope: Scope, token: Seq<char>)
    -> Option<int> {
    first_from(records, scope, token, 0)
}

/// The position of the last record among the first `upto` that carries the token.
pub open spec fn last_marked(records: Seq<RecordView>, token: Seq<char>, upto: int) -> Option<int>
    decreases upto,
{
    if upto <= 0 || upto > records.len() {
        None
    } else if marked(records[upto - 1], token) {
        Some(upto - 1)
    } else {
        last_marked(records, token, upto - 1)
    }
}

/// The position of the first record at or after `from` that is within the scope
/// and has the given number.
pub open spec fn numbered_from(records: Seq<RecordView>, scope: Scope, number: u8, from: int)
    -> Option<int>
    decreases records.len() - from,
{
    if from < 0 || from >= records.len() {
        None
    } else if within(records[from], scope) && records[from].number == number {
        Some(from)
    } else {
        numbered_from(records, scope, number, from + 1)
    }
}

/// How large a partition is, as far as the unit of its size tells.
#[derive(Debug, Clone, Copy, PartialEq, Eq, Structural)]
pub enum Scale {
    /// The size is given in GiB.
    Large,
    /// The size is given in MiB.
    Small,
    /// The size is given in another unit, or not at all.
    Unknown,
}

/// The scale of a size: by the unit that the size is given in.
pub open spec fn scale_of(size: Seq<char>) -> Scale {
    if mentions(size, LARGE_MARK@) {
        Scale::Large
    } else if mentions(size, SMALL_MARK@) {
        Scale::Small
    } else {
        Scale::Unknown
    }
}

/// A search by size accepts a record: it is within the scope, its size is of the
/// scale, and its number is not the one that is left out.
pub open spec fn fits(record: RecordView, scope: Scope, scale: Scale, except: Option<u8>) -> bool {
    &&& within(record, scope)
    &&& scale_of(record.size) == scale
    &&& except != Some(record.number)
}

/// The position of the first record at or after `from` that a search by size
/// accepts.
pub open spec fn scaled_from(
    records: Seq<RecordView>,
    scope: Scope,
    scale: Scale,
    except: Option<u8>,
    from: int,
) -> Option<int>
    decreases records.len() - from,
{
    if from < 0 || from >= records.len() {
        None
    } else if fits(records[from], scope, scale, except) {
        Some(from)
    } else {
        scaled_from(records, scope, scale, except, from + 1)
    }
}

/// The position of the first record that a search by size accepts.
pub open spec fn first_scaled(
    records: Seq<RecordView>,
    scope: Scope,
    scale: Scale,
    except: Option<u8>,
) -> Option<int> {
    scaled_from(records, scope, scale, except, 0)
}

/// How many of the first `upto` records are within the scope.
pub open spec fn count_within(records: Seq<RecordView>, scope: Scope, upto: int) -> nat
    decreases upto,
{
    if upto <= 0 || upto > records.len() {
        0
    } else {
        count_within(records, scope, upto - 1) + if within(records[upto - 1], scope) {
            1nat
        } else {
            0nat
        }
    }
}

/// What a search finds is a record that it accepts, and the first such record.
pub proof fn lemma_first_from(records: Seq<RecordView>, scope: Scope, token: Seq<char>, from: int)
    requires
        0 <= from,
    ensures
        match first_from(records, scope, token, from) {
            Some(at) => {
                &&& from <= at < records.len()
                &&& accepts(records[at], scope, token)
                &&& forall|k: int| from <= k < at ==> !accepts(records[k], scope, token)
            },
            None => forall|k: int| from <= k < records.len() ==> !accepts(records[k], scope, token),
        },
    decreases records.len() - from,
{
    if from < records.len() && !accepts(records[from], scope, token) {
        lemma_first_from(records, scope, token, from + 1);
    }
}

/// What a search by size finds is a record that it accepts, and the first such
/// record.
pub proof fn lemma_scaled_from(
    records: Seq<RecordView>,
    scope: Scope,
    scale: Scale,
    except: Option<u8>,
    from: int,
)
    requires
        0 <= from,
    ensures
        match scaled_from(records, scope, scale, except, from) {
            Some(at) => {
                &&& from <= at < records.len()
                &&& fits(records[at], scope, scale, except)
                &&& forall|k: int| from <= k < at ==> !fits(records[k], scope, scale, except)
            },
            None => forall|k: int|
                from <= k < records.len() ==> !fits(records[k], scope, scale, except),
        },
    decreases records.len() - from,
{
    if from < records.len() && !fits(records[from], scope, scale, except) {
        lemma_scaled_from(records, scope, scale, except, from + 1);
    }
}

impl PartitionRecord {
    /// Whether the record carries a signature token: whether its line holds it.
    pub fn mentions(&self, token: &str) -> (found: bool)
        ensures
            found == marked(self@, token@),
    {
        contains(self.line.as_str(), token)
    }

    /// The scale of the partition: by the unit that its size is given in.
    pub fn scale(&self) -> (scale: Scale)
        ensures
            scale == scale_of(self@.size),
    {
        if contains(self.size.as_str(), LARGE_MARK) {
            Scale::Large
        } else if contains(self.size.as_str(), SMALL_MARK) {
            Scale::Small
        } else {
            Scale::Unknown
        }
    }

    /// Whether the record is within the scope of a search.
    pub fn is_within(&self, scope: Scope) -> (inside: bool)
        ensures
            inside == within(self@, scope),
    {
        match scope {
            Scope::All => true,
            Scope::Plain => !self.mentions(EFI_MARK) && !self.mentions(BIOS_MARK),
            Scope::Unmanaged => !self.mentions(EFI_MARK) && !self.mentions(BIOS_MARK)
                && !self.mentions(LVM_MARK),
        }
    }
}

/// The position of the first record within the scope that carries the token.
pub fn find_first(catalog: &Vec<PartitionRecord>, scope: Scope, token: &str) -> (found: Option<
    usize,
>)
    ensures
        match found {
            Some(at) => first_accepted(views(catalog@), scope, token@) == Some(at as int) && at
                < catalog@.len(),
            None => first_accepted(views(catalog@), scope, token@) is None,
        },
{
    let ghost records = views(catalog@);
    let mut i: usize = 0;
    while i < catalog.len()
        invariant
            i <= catalog.len(),
            records == views(catalog@),
            first_accepted(records, scope, token@) == first_from(records, scope, token@, i as int),
        decreases catalog.len() - i,
    {
        assert(records[i as int] == catalog@[i as int]@);
        if catalog[i].is_within(scope) && catalog[i].mentions(token) {
            return Some(i);
        }
        i += 1;
    }
    None
}

/// The position of the last record that carries the token.
pub fn find_last(catalog: &Vec<PartitionRecord>, token: &str) -> (found: Option<usize>)
    ensures
        match found {
            Some(at) => last_marked(views(catalog@), token@, catalog@.len() as int) == Some(
                at as int,
            ) && at < catalog@.len(),
            None => last_marked(views(catalog@), token@, catalog@.len() as int) is None,
        },
{
    let ghost records = views(catalog@);
    let mut i: usize = catalog.len();
    while i > 0
        invariant
            i <= catalog.len(),
            records == views(catalog@),
            last_marked(records, token@, catalog@.len() as int) == last_marked(
                records,
                token@,
                i as int,
            ),
        decreases i,
    {
        assert(records[i - 1] == catalog@[i - 1]@);
        if catalog[i - 1].mentions(token) {
            return Some(i - 1);
        }
        i -= 1;
    }
    None
}

/// The position of the first record within the scope that has the given
/// partition number.
pub fn find_number(catalog: &Vec<PartitionRecord>, scope: Scope, number: u8) -> (found: Option<
    usize,
>)
    ensures
        match found {
            Some(at) => numbered_from(views(catalog@), scope, number, 0) == Some(at as int) && at
                < catalog@.len(),
            None => numbered_from(views(catalog@), scope, number, 0) is None,
        },
{
    let ghost records = views(catalog@);
    let mut i: usize = 0;
    while i < catalog.len()
        invariant
            i <= catalog.len(),
            records == views(catalog@),
            numbered_from(records, scope, number, 0) == numbered_from(
                records,
                scope,
                number,
                i as int,
            ),
        decreases catalog.len() - i,
    {
        assert(records[i as int] == catalog@[i as int]@);
        if catalog[i].is_within(scope) && catalog[i].number == number {
            return Some(i);
        }
        i += 1;
    }
    None
}

/// The position of the first record within the scope whose size is of the given
/// scale and whose number is not the one that is left out.
pub fn find_scaled(
    catalog: &Vec<PartitionRecord>,
    scope: Scope,
    scale: Scale,
    except: Option<u8>,
) -> (found: Option<usize>)
    ensures
        match found {
            Some(at) => first_scaled(views(catalog@), scope, scale, except) == Some(at as int)
                && at < catalog@.len(),
            None => first_scaled(views(catalog@), scope, scale, except) is None,
        },
{
    let ghost records = views(catalog@);
    let mut i: usize = 0;
    while i < catalog.len()
        invariant
            i <= catalog.len(),
            records == views(catalog@),
            first_scaled(records, scope, scale, except) == scaled_from(
                records,
                scope,
                scale,
                except,
                i as int,
            ),
        decreases catalog.len() - i,
    {
        assert(records[i as int] == catalog@[i as int]@);
        let left_out = match except {
            Some(number) => catalog[i].number == number,
            None => false,
        };
        if catalog[i].is_within(scope) && catalog[i].scale() == scale && !left_out {
            return Some(i);
        }
        i += 1;
    }
    None
}

/// How many records are within the scope.
pub fn count_in_scope(catalog: &Vec<PartitionRecord>, scope: Scope) -> (count: usize)
    ensures
        count == count_within(views(catalog@), scope, catalog@.len() as int),
{
    let ghost records = views(catalog@);
    let mut count: usize = 0;
    let mut i: usize = 0;
    while i < catalog.len()
        invariant
            i <= catalog.len(),
            records == views(catalog@),
            count == count_within(records, scope, i as int),
            count <= i,
        decreases catalog.len() - i,
    {
        assert(records[i as int] == catalog@[i as int]@);
        if catalog[i].is_within(scope) {
            count += 1;
        }
        i += 1;
    }
    count
}

/// A line of a listing describes a partition: it starts with a digit, or with one
/// blank and a digit.
pub open spec fn describes_partition(line: Seq<char>) -> bool {
    ||| line.len() > 0 && digit_value(line[0]) is Some
    ||| line.len() > 1 && line[0] == ' ' && digit_value(line[1]) is Some
}

/// The lines of a listing that describe a partition, from line number `from` on,
/// in order. The lines of a listing are separated by line feeds.
pub open spec fn partition_lines(listing: Seq<char>, from: nat) -> Seq<Seq<char>>
    decreases listing.len() + 1 - from,
{
    if from > listing.len() {
        seq![]
    } else {
        match field(listing, '\n', from) {
            Some(line) => (if describes_partition(line) {
                seq![line]
            } else {
                seq![]
            }) + partition_lines(listing, from + 1),
            None => seq![],
        }
    }
}

/// Whether a line of a listing describes a partition.
pub fn is_partition_line(line: &str) -> (describes: bool)
    ensures
        describes == describes_partition(line@),
{
    let chars = chars_of(line);
    if chars.len() > 0 && digit_of(chars[0]).is_some() {
        true
    } else {
        chars.len() > 1 && chars[0] == ' ' && digit_of(chars[1]).is_some()
    }
}

/// The lines of a partition listing that describe a partition, in order. The
/// header of the listing and the line of the disk itself are left out.
pub fn get_partitions(listing: &str) -> (partitions: Vec<String>)
    ensures
        text_views(partitions@) == partition_lines(listing@, 0),
{
    let length: usize = listing.unicode_len();
    let mut partitions: Vec<String> = Vec::new();
    let mut index: usize = 0;
    assert(text_views(partitions@) =~= Seq::<Seq<char>>::empty());
    loop
        invariant
            length == listing@.len(),
            index <= length,
            text_views(partitions@) + partition_lines(listing@, index as nat) == partition_lines(
                listing@,
                0,
            ),
        decreases length - index,
    {
        let ghost before = text_views(partitions@);
        match cut(listing, '\n', index) {
            Some(line) => {
                proof {
                    lemma_field_start_bounds(listing@, '\n', index as nat);
                }
                if is_partition_line(line) {
                    partitions.push(String::from_str(line));
                    assert(text_views(partitions@) =~= before + seq![line@]);
                }
                assert(text_views(partitions@) + partition_lines(listing@, (index + 1) as nat)
                    =~= before + partition_lines(listing@, index as nat));
                if index == length {
                    assert(partition_lines(listing@, (index + 1) as nat) =~= Seq::<
                        Seq<char>,
                    >::empty());
                    assert(text_views(partitions@) =~= partition_lines(listing@, 0));
                    return partitions;
                }
                index += 1;
            },
            None => {
                assert(partition_lines(listing@, index as nat) =~= Seq::<Seq<char>>::empty());
                assert(text_views(partitions@) =~= partition_lines(listing@, 0));
                return partitions;
            },
        }
    }
}

} // verus!
