//! The lookup table: an immutable mapping from code point to uppercase
//! equivalent, built once from classification records, and its query API.

use std::collections::HashMap;

use vstd::prelude::*;
use vstd::string::*;

use crate::hash_generation::EndPoint;
use crate::letter::letter_chars;
use crate::letter::Letter;
use crate::property::property_from_flags;
use crate::property::property_of_flags;
use crate::text::to_chars;
use crate::uppercase::not_an_uppercase;
use crate::uppercase::not_an_uppercase_spec;
use crate::uppercase::Uppercase;

verus! {

broadcast use vstd::std_specs::hash::group_hash_axioms;

/// The letter value of a residual of one or two characters.
pub open spec fn letter_of_chars(s: Seq<char>) -> Letter
    recommends
        1 <= s.len() <= 2,
{
    if s.len() == 1 {
        Letter::Letter(s[0])
    } else {
        Letter::Letters(s[0], s[1])
    }
}

/// Whether a record's letter string has a length that a `Letter` can hold.
/// Any other length is the record's construction-time failure
/// (`InvalidLetterLength`): the builder skips such a record.
pub open spec fn letter_length_ok(e: EndPoint) -> bool {
    1 <= e.uppercase_az@.len() <= 2
}

/// The table entry derived from a record: its letter string as a `Letter`
/// and its boolean triple as a `Property`.
pub open spec fn uppercase_of_record(e: EndPoint) -> Uppercase
    recommends
        letter_length_ok(e),
{
    Uppercase {
        letter: letter_of_chars(e.uppercase_az@),
        property: property_of_flags(e.is_capital, e.is_small, e.is_decoration),
    }
}

/// The mapping that a sequence of records builds: each record with a valid
/// letter length inserts its entry under its code point, in order, so a
/// later record for the same code point overwrites an earlier one; a record
/// with an invalid letter length is skipped.
pub open spec fn build_map(rs: Seq<EndPoint>) -> Map<u32, Uppercase>
    decreases rs.len(),
{
    if rs.len() == 0 {
        Map::empty()
    } else {
        let m = build_map(rs.drop_last());
        let e = rs.last();
        if letter_length_ok(e) {
            m.insert(e.code_point, uppercase_of_record(e))
        } else {
            m
        }
    }
}

/// What a lookup returns: the entry under the code point, or the sentinel
/// where the table has none.
pub open spec fn lookup_spec(m: Map<u32, Uppercase>, code_point: u32) -> Uppercase {
    if m.dom().contains(code_point) {
        m[code_point]
    } else {
        not_an_uppercase_spec()
    }
}

/// The transform of a text under a table: each character is looked up
/// independently, in order, and the letter characters of each result are
/// concatenated.
pub open spec fn transform_spec(m: Map<u32, Uppercase>, s: Seq<char>) -> Seq<char>
    decreases s.len(),
{
    if s.len() == 0 {
        Seq::empty()
    } else {
        transform_spec(m, s.drop_last()) + letter_chars(lookup_spec(m, s.last() as u32).letter)
    }
}

/// The immutable lookup table from code point to uppercase equivalent.
/// Built once from classification records; read-only afterward.
pub struct UppercaseAZ {
    map: HashMap<u32, Uppercase>,
}

impl View for UppercaseAZ {
    type V = Map<u32, Uppercase>;

    closed spec fn view(&self) -> Map<u32, Uppercase> {
        self.map@
    }
}

impl UppercaseAZ {
    /// Builds the table from classification records. Records whose letter
    /// string cannot form a `Letter` (length 0, or 3 and more) are skipped,
    /// so one anomalous record never blocks the rest of the table; records
    /// are inserted in order, so for a duplicated code point the last record
    /// wins.
    pub fn from_records(records: &Vec<EndPoint>) -> (t: UppercaseAZ)
        ensures
            t@ == build_map(records@),
    {
        let mut map: HashMap<u32, Uppercase> = HashMap::new();
        let mut i: usize = 0;
        proof {
            assert(records@.take(0) =~= Seq::<EndPoint>::empty());
        }
        while i < records.len()
            invariant
                i <= records@.len(),
                map@ == build_map(records@.take(i as int)),
            decreases records@.len() - i,
        {
            proof {
                assert(records@.take(i as int + 1).drop_last() =~= records@.take(i as int));
                assert(records@.take(i as int + 1).last() == records@[i as int]);
            }
            let e = &records[i];
            let letters = to_chars(e.uppercase_az.as_str());
            if letters.len() == 1 {
                let entry = Uppercase {
                    letter: Letter::Letter(letters[0]),
                    property: property_from_flags(e.is_capital, e.is_small, e.is_decoration),
                };
                map.insert(e.code_point, entry);
            } else if letters.len() == 2 {
                let entry = Uppercase {
                    letter: Letter::Letters(letters[0], letters[1]),
                    property: property_from_flags(e.is_capital, e.is_small, e.is_decoration),
                };
                map.insert(e.code_point, entry);
            }
            i = i + 1;
        }
        proof {
            assert(records@.take(records@.len() as int) =~= records@);
        }
        UppercaseAZ { map }
    }

    /// Looks up a code point: the table entry where one exists, else the
    /// sentinel. Never fails.
    pub fn lookup(&self, code_point: u32) -> (r: Uppercase)
        ensures
            r == lookup_spec(self@, code_point),
    {
        match self.map.get(&code_point) {
            Some(u) => *u,
            None => not_an_uppercase(),
        }
    }

    /// Looks up a character by its code point value.
    pub fn lookup_char(&self, c: char) -> (r: Uppercase)
        ensures
            r == lookup_spec(self@, c as u32),
    {
        self.lookup(c as u32)
    }

    /// Transforms a whole text: looks up each character independently, in
    /// order, and concatenates each result's letter representation. An
    /// unmapped character renders as the sentinel's letter.
    pub fn transform(&self, text: &str) -> (r: String)
        ensures
            r@ == transform_spec(self@, text@),
    {
        let chars = to_chars(text);
        let mut out = String::new();
        let mut i: usize = 0;
        proof {
            assert(text@.take(0) =~= Seq::<char>::empty());
        }
        while i < chars.len()
            invariant
                chars@ == text@,
                i <= chars@.len(),
                out@ == transform_spec(self@, text@.take(i as int)),
            decreases chars@.len() - i,
        {
            proof {
                assert(text@.take(i as int + 1).drop_last() =~= text@.take(i as int));
                assert(text@.take(i as int + 1).last() == text@[i as int]);
            }
            let u = self.lookup_char(chars[i]);
            let letter = u.to_text();
            out.append(letter.as_str());
            i = i + 1;
        }
        proof {
            assert(text@.take(text@.len() as int) =~= text@);
        }
        out
    }
}

/// Law: the round trip from an inserted record to a lookup. A record with a
/// valid letter length whose code point no later record repeats is found in
/// the built table, under its code point, exactly as its letter and
/// property derive it.
pub proof fn lemma_build_round_trip(rs: Seq<EndPoint>, i: int)
    requires
        0 <= i < rs.len(),
        letter_length_ok(rs[i]),
        forall|j: int| i < j < rs.len() ==> (#[trigger] rs[j]).code_point != rs[i].code_point,
    ensures
        build_map(rs).dom().contains(rs[i].code_point),
        build_map(rs)[rs[i].code_point] == uppercase_of_record(rs[i]),
    decreases rs.len(),
{
    if i == rs.len() - 1 {
    } else {
        assert(rs.drop_last()[i] == rs[i]);
        assert(forall|j: int|
            i < j < rs.drop_last().len() ==> (#[trigger] rs.drop_last()[j]).code_point
                != rs.drop_last()[i].code_point);
        lemma_build_round_trip(rs.drop_last(), i);
        assert(rs.last() == rs[rs.len() - 1]);
    }
}

/// Law: characters transform independently. The transform of a
/// concatenation is the concatenation of the transforms, so each character's
/// rendering depends on that character and the table alone.
pub proof fn lemma_transform_append(m: Map<u32, Uppercase>, s1: Seq<char>, s2: Seq<char>)
    ensures
        transform_spec(m, s1 + s2) == transform_spec(m, s1) + transform_spec(m, s2),
    decreases s2.len(),
{
    if s2.len() == 0 {
        assert(s1 + s2 =~= s1);
        assert(transform_spec(m, s1) + transform_spec(m, s2) =~= transform_spec(m, s1));
    } else {
        lemma_transform_append(m, s1, s2.drop_last());
        assert((s1 + s2).drop_last() =~= s1 + s2.drop_last());
        assert((s1 + s2).last() == s2.last());
        let tail = letter_chars(lookup_spec(m, s2.last() as u32).letter);
        assert((transform_spec(m, s1) + transform_spec(m, s2.drop_last())) + tail
            =~= transform_spec(m, s1) + (transform_spec(m, s2.drop_last()) + tail));
    }
}

/// Law: a transform never shrinks its input. Every character renders as one
/// or two characters (the sentinel included), so the output holds at least
/// as many characters as the input.
pub proof fn lemma_transform_expands(m: Map<u32, Uppercase>, s: Seq<char>)
    ensures
        s.len() <= transform_spec(m, s).len() <= 2 * s.len(),
    decreases s.len(),
{
    if s.len() > 0 {
        lemma_transform_expands(m, s.drop_last());
        crate::letter::lemma_letter_length(lookup_spec(m, s.last() as u32).letter);
    }
}

/// Law: a code point never in the table looks up as the sentinel, whose
/// property is `NotAnUppercase`.
pub proof fn lemma_lookup_absent(m: Map<u32, Uppercase>, code_point: u32)
    requires
        !m.dom().contains(code_point),
    ensures
        lookup_spec(m, code_point) == not_an_uppercase_spec(),
        lookup_spec(m, code_point).property == crate::property::Property::NotAnUppercase,
{
}

} // verus!

