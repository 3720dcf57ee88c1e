//! The names of the Jobs that the service creates.

use vstd::prelude::*;
use vstd::utf8::*;

verus! {

/// The longest name that a Job may have, in bytes.
pub const MAX_JOB_NAME_BYTES: usize = 63;

/// How many characters of a random identifier stand at the end of a name.
pub const SUFFIX_LEN: usize = 8;

/// A lower-case hexadecimal digit.
pub open spec fn is_hex_digit(c: char) -> bool {
    ('0' <= c && c <= '9') || ('a' <= c && c <= 'f')
}

/// A UUID as it is commonly written: lower-case hexadecimal digits in groups
/// of eight, four, four, four and twelve, with hyphens between the groups.
pub open spec fn is_uuid_text(s: Seq<char>) -> bool {
    &&& s.len() == 36
    &&& forall|i: int|
        0 <= i < 36 ==> if i == 8 || i == 13 || i == 18 || i == 23 {
            #[trigger] s[i] == '-'
        } else {
            is_hex_digit(s[i])
        }
}

/// `uuid::Uuid::new_v4`, written out by the type's `Display`: a random
/// identifier in its hyphenated form, in lower case, with the digits that mark
/// its version and variant. Which one it is, chance decides; where the system
/// has no random bytes to give, the call does not return.
#[verifier::external_body]
pub(crate) fn random_uuid() -> (uuid: String)
    ensures
        is_uuid_text(uuid@),
        uuid@[14] == '4',
        uuid@[19] == '8' || uuid@[19] == '9' || uuid@[19] == 'a' || uuid@[19] == 'b',
{
    uuid::Uuid::new_v4().to_string()
}

/// What can stand at the end of a name: eight hexadecimal digits.
pub open spec fn is_name_suffix(s: Seq<char>) -> bool {
    s.len() == SUFFIX_LEN && forall|i: int| 0 <= i < s.len() ==> is_hex_digit(#[trigger] s[i])
}

/// The first eight characters of a UUID that are not hyphens.
pub open spec fn uuid_suffix(uuid: Seq<char>) -> Seq<char> {
    uuid.filter(|c: char| c != '-').take(SUFFIX_LEN as int)
}

/// The first eight digits of a UUID.
pub fn name_suffix(uuid: &str) -> (suffix: String)
    requires
        is_uuid_text(uuid@),
    ensures
        suffix@ == uuid_suffix(uuid@),
        is_name_suffix(suffix@),
{
    proof {
        lemma_uuid_starts_with_suffix(uuid@);
        assert(is_ascii_chars(uuid@));
    }
    uuid.substring_ascii(0, SUFFIX_LEN).to_owned()
}

proof fn lemma_uuid_starts_with_suffix(uuid: Seq<char>)
    requires
        is_uuid_text(uuid),
    ensures
        uuid_suffix(uuid) == uuid.take(8),
        is_name_suffix(uuid.take(8)),
{
    let keep = |c: char| c != '-';
    let head = uuid.take(8);
    let tail = uuid.skip(8);
    assert(uuid =~= head + tail);
    Seq::filter_distributes_over_add(head, tail, keep);
    lemma_filter_keeps_all(head, keep);
    assert((head + tail.filter(keep)).take(8) =~= head);
}

proof fn lemma_filter_keeps_all(s: Seq<char>, keep: spec_fn(char) -> bool)
    requires
        forall|i: int| 0 <= i < s.len() ==> keep(#[trigger] s[i]),
    ensures
        s.filter(keep) == s,
    decreases s.len(),
{
    reveal(Seq::filter);
    if s.len() > 0 {
        lemma_filter_keeps_all(s.drop_last(), keep);
        assert(keep(s[s.len() - 1]));
        assert(s.drop_last().push(s.last()) =~= s);
    }
}

/// The stem of the names of the Jobs made from a CronJob.
pub open spec fn name_stem(cronjob_name: Seq<char>) -> Seq<char> {
    cronjob_name + "-manual"@
}

/// How many bytes of the stem a name with this suffix has room for.
pub open spec fn stem_room(suffix: Seq<char>) -> int {
    MAX_JOB_NAME_BYTES - 1 - encode_utf8(suffix).len()
}

/// The stem, cut down to its first `room` bytes where it is longer.
pub open spec fn cut_stem(stem: Seq<char>, room: int) -> Seq<char> {
    if encode_utf8(stem).len() > room {
        decode_utf8(encode_utf8(stem).take(room))
    } else {
        stem
    }
}

/// The name of a Job: the stem, as much of it as there is room for, a hyphen
/// and the suffix.
pub open spec fn job_name(cronjob_name: Seq<char>, suffix: Seq<char>) -> Seq<char> {
    cut_stem(name_stem(cronjob_name), stem_room(suffix)) + "-"@ + suffix
}

/// Whether a name with this suffix can be made: where the stem has to be cut,
/// the cut does not fall inside a character.
pub open spec fn can_be_named(cronjob_name: Seq<char>, suffix_bytes: int) -> bool {
    let bytes = encode_utf8(name_stem(cronjob_name));
    let room = MAX_JOB_NAME_BYTES - 1 - suffix_bytes;
    bytes.len() > room ==> is_char_boundary(bytes, room)
}

/// The name with a given suffix.
pub fn job_name_with_suffix(cronjob_name: &str, suffix: &str) -> (name: String)
    requires
        encode_utf8(suffix@).len() < MAX_JOB_NAME_BYTES,
        can_be_named(cronjob_name@, encode_utf8(suffix@).len() as int),
    ensures
        name@ == job_name(cronjob_name@, suffix@),
{
    let base = cronjob_name.to_owned().concat("-manual");
    let max_base: usize = MAX_JOB_NAME_BYTES - 1 - suffix.as_bytes().len();
    if base.as_str().as_bytes().len() > max_base {
        let (head, _) = base.as_str().split_at(max_base);
        proof {
            encode_utf8_decode_utf8(head@);
            assert(encode_utf8(base@).subrange(0, max_base as int) =~= encode_utf8(base@).take(
                max_base as int,
            ));
        }
        head.to_owned().concat("-").concat(suffix)
    } else {
        base.concat("-").concat(suffix)
    }
}

/// The name that a UUID gives a Job.
pub open spec fn name_from_uuid(cronjob_name: Seq<char>, uuid: Seq<char>) -> Seq<char> {
    job_name(cronjob_name, uuid_suffix(uuid))
}

/// The name that a UUID gives a Job.
pub fn job_name_from_uuid(cronjob_name: &str, uuid: &str) -> (name: String)
    requires
        is_uuid_text(uuid@),
        can_be_named(cronjob_name@, SUFFIX_LEN as int),
    ensures
        name@ == name_from_uuid(cronjob_name@, uuid@),
{
    let suffix = name_suffix(uuid);
    proof {
        lemma_suffix_bytes(suffix@);
    }
    job_name_with_suffix(cronjob_name, suffix.as_str())
}

/// A name that some UUID gives a Job: only the last eight digits are left to
/// chance.
pub open spec fn is_unique_name_for(cronjob_name: Seq<char>, name: Seq<char>) -> bool {
    exists|uuid: Seq<char>| #[trigger]
        is_uuid_text(uuid) && name == name_from_uuid(cronjob_name, uuid)
}

/// A fresh name for a Job made from this CronJob.
pub fn unique_job_name(cronjob_name: &str) -> (name: String)
    requires
        can_be_named(cronjob_name@, SUFFIX_LEN as int),
    ensures
        is_unique_name_for(cronjob_name@, name@),
{
    let uuid = random_uuid();
    job_name_from_uuid(cronjob_name, uuid.as_str())
}

/// Whether a name can be made for a Job from this CronJob.
pub fn can_name_job(cronjob_name: &str) -> (res: bool)
    ensures
        res == can_be_named(cronjob_name@, SUFFIX_LEN as int),
{
    let base = cronjob_name.to_owned().concat("-manual");
    let room: usize = MAX_JOB_NAME_BYTES - 1 - SUFFIX_LEN;
    base.as_str().as_bytes().len() <= room || base.as_str().is_char_boundary(room)
}

proof fn lemma_encode_utf8_append(a: Seq<char>, b: Seq<char>)
    ensures
        encode_utf8(a + b) == encode_utf8(a) + encode_utf8(b),
    decreases a.len(),
{
    if a.len() == 0 {
        assert(a + b =~= b);
        assert(encode_utf8(a) + encode_utf8(b) =~= encode_utf8(b));
    } else {
        lemma_encode_utf8_append(a.drop_first(), b);
        assert((a + b).drop_first() =~= a.drop_first() + b);
        assert(encode_utf8(a + b) =~= encode_utf8(a) + encode_utf8(b));
    }
}

proof fn lemma_literals()
    ensures
        encode_utf8("-manual"@).len() == 7,
        encode_utf8("-"@).len() == 1,
        "-manual"@ + "-"@ == "-manual-"@,
{
    reveal_strlit("-manual");
    reveal_strlit("-");
    reveal_strlit("-manual-");
    is_ascii_chars_encode_utf8("-manual"@);
    is_ascii_chars_encode_utf8("-"@);
    assert("-manual"@ + "-"@ =~= "-manual-"@);
}

/// No name is longer than a Job's name may be.
pub proof fn law_name_fits(cronjob_name: Seq<char>, suffix: Seq<char>)
    requires
        encode_utf8(suffix).len() < MAX_JOB_NAME_BYTES,
        can_be_named(cronjob_name, encode_utf8(suffix).len() as int),
    ensures
        encode_utf8(job_name(cronjob_name, suffix)).len() <= MAX_JOB_NAME_BYTES,
{
    let stem = name_stem(cronjob_name);
    let room = stem_room(suffix);
    let cut = cut_stem(stem, room);
    let bytes = encode_utf8(stem);
    if bytes.len() > room {
        encode_utf8_valid_utf8(stem);
        assert(bytes.take(room) =~= bytes.subrange(0, room));
        valid_utf8_split(bytes, room);
        decode_utf8_encode_utf8(bytes.take(room));
    }
    lemma_literals();
    lemma_encode_utf8_append(cut, "-"@);
    lemma_encode_utf8_append(cut + "-"@, suffix);
}

/// So a fresh name is never too long, whatever chance brings.
pub proof fn law_unique_name_fits(cronjob_name: Seq<char>, name: Seq<char>)
    requires
        can_be_named(cronjob_name, SUFFIX_LEN as int),
        is_unique_name_for(cronjob_name, name),
    ensures
        encode_utf8(name).len() <= MAX_JOB_NAME_BYTES,
{
    let uuid = choose|uuid: Seq<char>| #[trigger]
        is_uuid_text(uuid) && name == name_from_uuid(cronjob_name, uuid);
    let suffix = uuid_suffix(uuid);
    lemma_uuid_starts_with_suffix(uuid);
    lemma_suffix_bytes(suffix);
    law_name_fits(cronjob_name, suffix);
}

/// A CronJob name of up to 47 bytes stands whole in the names of its Jobs.
pub proof fn law_short_name_is_kept(cronjob_name: Seq<char>, suffix: Seq<char>)
    requires
        encode_utf8(cronjob_name).len() <= 47,
        is_name_suffix(suffix),
    ensures
        can_be_named(cronjob_name, SUFFIX_LEN as int),
        job_name(cronjob_name, suffix) == cronjob_name + "-manual-"@ + suffix,
{
    lemma_literals();
    lemma_suffix_bytes(suffix);
    lemma_encode_utf8_append(cronjob_name, "-manual"@);
    assert(cronjob_name + "-manual"@ + "-"@ =~= cronjob_name + ("-manual"@ + "-"@));
}

proof fn lemma_suffix_bytes(suffix: Seq<char>)
    requires
        is_name_suffix(suffix),
    ensures
        encode_utf8(suffix).len() == SUFFIX_LEN,
{
    assert(is_ascii_chars(suffix));
    is_ascii_chars_encode_utf8(suffix);
}

/// Two suffixes give one CronJob two names.
pub proof fn law_suffixes_tell_names_apart(
    cronjob_name: Seq<char>,
    suffix: Seq<char>,
    other: Seq<char>,
)
    requires
        is_name_suffix(suffix),
        is_name_suffix(other),
        suffix != other,
    ensures
        job_name(cronjob_name, suffix) != job_name(cronjob_name, other),
{
    lemma_suffix_bytes(suffix);
    lemma_suffix_bytes(other);
    let front = cut_stem(name_stem(cronjob_name), stem_room(suffix)) + "-"@;
    let name = job_name(cronjob_name, suffix);
    let other_name = job_name(cronjob_name, other);
    assert(name.skip(front.len() as int) =~= suffix);
    assert(other_name.skip(front.len() as int) =~= other);
}

/// Two UUIDs give one CronJob the same name iff they agree in their first eight
/// digits, however much of the CronJob's name is cut off.
pub proof fn law_uuids_tell_names_apart(cronjob_name: Seq<char>, uuid: Seq<char>, other: Seq<char>)
    requires
        is_uuid_text(uuid),
        is_uuid_text(other),
    ensures
        name_from_uuid(cronjob_name, uuid) == name_from_uuid(cronjob_name, other) <==> uuid.take(
            SUFFIX_LEN as int,
        ) == other.take(SUFFIX_LEN as int),
{
    lemma_uuid_starts_with_suffix(uuid);
    lemma_uuid_starts_with_suffix(other);
    if uuid_suffix(uuid) != uuid_suffix(other) {
        law_suffixes_tell_names_apart(cronjob_name, uuid_suffix(uuid), uuid_suffix(other));
    }
}

/// A name can be made for every CronJob whose own name is ASCII, as the names
/// of Kubernetes objects are.
pub proof fn law_ascii_names_can_be_named(cronjob_name: Seq<char>)
    requires
        is_ascii_chars(cronjob_name),
    ensures
        can_be_named(cronjob_name, SUFFIX_LEN as int),
{
    let stem = name_stem(cronjob_name);
    let bytes = encode_utf8(stem);
    reveal_strlit("-manual");
    assert(is_ascii_chars(stem));
    is_ascii_chars_encode_utf8(stem);
    encode_utf8_valid_utf8(stem);
    let room = MAX_JOB_NAME_BYTES - 1 - SUFFIX_LEN;
    if bytes.len() > room {
        is_char_boundary_iff_not_is_continuation_byte(bytes, room);
        assert(stem[room] as u8 == bytes[room]);
        utf8_byte_ranges_bitwise(bytes[room]);
    }
}

/// The name that a UUID gives a Job, byte for byte: as much of the CronJob's
/// name and `-manual` as fits in 54 bytes, a hyphen, and the first eight digits
/// of the UUID.
pub proof fn law_name_in_full(cronjob_name: Seq<char>, uuid: Seq<char>)
    requires
        is_uuid_text(uuid),
        can_be_named(cronjob_name, 8),
    ensures
        ({
            let stem = encode_utf8(cronjob_name + "-manual"@);
            let name = name_from_uuid(cronjob_name, uuid);
            &&& stem.len() <= 54 ==> name == cronjob_name + "-manual"@ + "-"@ + uuid.take(8)
            &&& stem.len() > 54 ==> encode_utf8(name) == stem.take(54) + encode_utf8(
                "-"@ + uuid.take(8),
            ) && encode_utf8(name).len() == 63
        }),
{
    lemma_uuid_starts_with_suffix(uuid);
    let suffix = uuid.take(8);
    lemma_suffix_bytes(suffix);
    lemma_literals();
    let stem = name_stem(cronjob_name);
    let bytes = encode_utf8(stem);
    if bytes.len() > 54 {
        encode_utf8_valid_utf8(stem);
        assert(bytes.take(54) =~= bytes.subrange(0, 54));
        valid_utf8_split(bytes, 54);
        decode_utf8_encode_utf8(bytes.take(54));
        let cut = decode_utf8(bytes.take(54));
        assert(cut + "-"@ + suffix =~= cut + ("-"@ + suffix));
        lemma_encode_utf8_append(cut, "-"@ + suffix);
        lemma_encode_utf8_append("-"@, suffix);
    }
}

/// Which CronJobs a name can be made for: those whose name with `-manual` is no
/// longer than 54 bytes, or has a character beginning at the 55th.
pub proof fn law_which_can_be_named(cronjob_name: Seq<char>)
    ensures
        can_be_named(cronjob_name, 8) <==> {
            let stem = encode_utf8(cronjob_name + "-manual"@);
            stem.len() <= 54 || is_char_boundary(stem, 54)
        },
{
}

/// A suffix is the first eight digits of its UUID.
pub proof fn law_suffix_of_a_uuid(uuid: Seq<char>)
    requires
        is_uuid_text(uuid),
    ensures
        uuid_suffix(uuid) == uuid.take(8),
        is_name_suffix(uuid_suffix(uuid)),
        SUFFIX_LEN == 8,
        MAX_JOB_NAME_BYTES == 63,
{
    lemma_uuid_starts_with_suffix(uuid);
}

/// With any suffix, a name ends in a hyphen and the suffix, and what stands
/// before them is a beginning of the CronJob's name and `-manual`: all of it
/// where the whole has room in 63 bytes, and as many bytes as fit where not.
pub proof fn law_name_with_suffix_in_full(cronjob_name: Seq<char>, suffix: Seq<char>)
    requires
        encode_utf8(suffix).len() < 63,
        can_be_named(cronjob_name, encode_utf8(suffix).len() as int),
    ensures
        ({
            let stem = encode_utf8(cronjob_name + "-manual"@);
            let tail = encode_utf8("-"@ + suffix);
            let name = encode_utf8(job_name(cronjob_name, suffix));
            &&& tail.len() == 1 + encode_utf8(suffix).len()
            &&& stem.len() + tail.len() <= 63 ==> name == stem + tail
            &&& stem.len() + tail.len() > 63 ==> name == stem.take(63 - tail.len()) + tail
        }),
{
    lemma_literals();
    let stem = name_stem(cronjob_name);
    let room = stem_room(suffix);
    let cut = cut_stem(stem, room);
    let bytes = encode_utf8(stem);
    if bytes.len() > room {
        encode_utf8_valid_utf8(stem);
        assert(bytes.take(room) =~= bytes.subrange(0, room));
        valid_utf8_split(bytes, room);
        decode_utf8_encode_utf8(bytes.take(room));
    }
    assert(cut + "-"@ + suffix =~= cut + ("-"@ + suffix));
    lemma_encode_utf8_append(cut, "-"@ + suffix);
    lemma_encode_utf8_append("-"@, suffix);
}

/// A fresh name is one that some UUID gives, and every such name may come.
pub proof fn law_fresh_names_come_from_uuids(cronjob_name: Seq<char>, name: Seq<char>)
    ensures
        is_unique_name_for(cronjob_name, name) <==> exists|uuid: Seq<char>| #[trigger]
            is_uuid_text(uuid) && name == job_name(cronjob_name, uuid.take(8)),
{
    if is_unique_name_for(cronjob_name, name) {
        let uuid = choose|uuid: Seq<char>| #[trigger]
            is_uuid_text(uuid) && name == name_from_uuid(cronjob_name, uuid);
        lemma_uuid_starts_with_suffix(uuid);
    }
    if exists|uuid: Seq<char>| #[trigger]
        is_uuid_text(uuid) && name == job_name(cronjob_name, uuid.take(8)) {
        let uuid = choose|uuid: Seq<char>| #[trigger]
            is_uuid_text(uuid) && name == job_name(cronjob_name, uuid.take(8));
        lemma_uuid_starts_with_suffix(uuid);
    }
}

/// With any suffix that leaves room, a name can be made iff the CronJob's name
/// and `-manual` fit in what the suffix and its hyphen leave of 63 bytes, or a
/// character begins where they are cut.
pub proof fn law_which_can_be_named_with_suffix(cronjob_name: Seq<char>, suffix: Seq<char>)
    requires
        encode_utf8(suffix).len() < 63,
    ensures
        can_be_named(cronjob_name, encode_utf8(suffix).len() as int) <==> {
            let stem = encode_utf8(cronjob_name + "-manual"@);
            let tail = encode_utf8("-"@ + suffix);
            stem.len() + tail.len() <= 63 || is_char_boundary(stem, 63 - tail.len())
        },
{
    lemma_literals();
    lemma_encode_utf8_append("-"@, suffix);
}

/// So many lower-case hexadecimal digits.
pub open spec fn is_hex_group(s: Seq<char>, len: nat) -> bool {
    s.len() == len && forall|i: int|
        0 <= i < s.len() ==> (48 <= (#[trigger] s[i]) as int <= 57 || 97 <= s[i] as int <= 102)
}

/// Five texts with hyphens between them.
pub open spec fn hyphenated(
    a: Seq<char>,
    b: Seq<char>,
    c: Seq<char>,
    d: Seq<char>,
    e: Seq<char>,
) -> Seq<char> {
    a + seq!['-'] + b + seq!['-'] + c + seq!['-'] + d + seq!['-'] + e
}

/// A UUID is written as five groups of lower-case hexadecimal digits, of eight,
/// four, four, four and twelve, with hyphens between them; and any five such
/// groups are one.
pub proof fn law_uuid_is_five_groups(uuid: Seq<char>)
    ensures
        is_uuid_text(uuid) <==> exists|
            a: Seq<char>,
            b: Seq<char>,
            c: Seq<char>,
            d: Seq<char>,
            e: Seq<char>,
        |
            is_hex_group(a, 8) && is_hex_group(b, 4) && is_hex_group(c, 4) && is_hex_group(d, 4)
                && is_hex_group(e, 12) && uuid == #[trigger] hyphenated(a, b, c, d, e),
{
    if is_uuid_text(uuid) {
        let a = uuid.subrange(0, 8);
        let b = uuid.subrange(9, 13);
        let c = uuid.subrange(14, 18);
        let d = uuid.subrange(19, 23);
        let e = uuid.subrange(24, 36);
        assert(uuid[8] == '-' && uuid[13] == '-' && uuid[18] == '-' && uuid[23] == '-');
        assert(uuid =~= hyphenated(a, b, c, d, e));
        assert forall|i: int|
            0 <= i < 36 && i != 8 && i != 13 && i != 18 && i != 23 implies is_hex_digit(
            #[trigger] uuid[i],
        ) by {
        }
        assert(is_hex_group(a, 8) && is_hex_group(b, 4) && is_hex_group(c, 4));
        assert(is_hex_group(d, 4) && is_hex_group(e, 12));
    }
    if exists|a: Seq<char>, b: Seq<char>, c: Seq<char>, d: Seq<char>, e: Seq<char>|
        is_hex_group(a, 8) && is_hex_group(b, 4) && is_hex_group(c, 4) && is_hex_group(d, 4)
            && is_hex_group(e, 12) && uuid == #[trigger] hyphenated(a, b, c, d, e) {
        let (a, b, c, d, e) = choose|
            a: Seq<char>,
            b: Seq<char>,
            c: Seq<char>,
            d: Seq<char>,
            e: Seq<char>,
        |
            is_hex_group(a, 8) && is_hex_group(b, 4) && is_hex_group(c, 4) && is_hex_group(d, 4)
                && is_hex_group(e, 12) && uuid == #[trigger] hyphenated(a, b, c, d, e);
        assert forall|i: int| 0 <= i < 36 implies if i == 8 || i == 13 || i == 18 || i == 23 {
            #[trigger] uuid[i] == '-'
        } else {
            is_hex_digit(uuid[i])
        } by {
            if i < 8 {
                assert(uuid[i] == a[i]);
            } else if 8 < i < 13 {
                assert(uuid[i] == b[i - 9]);
            } else if 13 < i < 18 {
                assert(uuid[i] == c[i - 14]);
            } else if 18 < i < 23 {
                assert(uuid[i] == d[i - 19]);
            } else if 23 < i {
                assert(uuid[i] == e[i - 24]);
            }
        }
    }
}

} // verus!
