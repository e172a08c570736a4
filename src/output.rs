use vstd::prelude::*;
use vstd::string::*;
use vstd::utf8::*;

verus! {

/// The text that the print-line form expands: its template with one newline appended.
pub open spec fn line_text(template: Seq<char>) -> Seq<char> {
    template.push('\n')
}

/// The bytes that a print of `text` puts on the output stream: its UTF-8 encoding.
pub open spec fn printed(text: Seq<char>) -> Seq<u8> {
    encode_utf8(text)
}

/// The template of the print-line form: `template` followed by a single newline.
pub fn with_newline(template: &str) -> (r: String)
    ensures
        r@ == line_text(template@),
{
    let mut s = template.to_owned();
    let nl = "\n";
    proof {
        reveal_strlit("\n");
    }
    s.append(nl);
    assert(s@ =~= line_text(template@));
    s
}

/// The bytes that the writer hands to the output stream for `text`.
pub fn output_bytes(text: &str) -> (r: Vec<u8>)
    ensures
        r@ == printed(text@),
{
    text.as_bytes_vec()
}

/// Two prints issued in order put on the stream exactly the bytes of one
/// print of the two texts joined: nothing is lost, added or reordered between them.
pub proof fn lemma_printed_concat(first: Seq<char>, second: Seq<char>)
    ensures
        printed(first + second) == printed(first) + printed(second),
    decreases first.len(),
{
    if first.len() == 0 {
        assert(first + second =~= second);
        assert(printed(first) + printed(second) =~= printed(second));
    } else {
        let rest = first.drop_first();
        lemma_printed_concat(rest, second);
        assert((first + second)[0] == first[0]);
        assert((first + second).drop_first() =~= rest + second);
        let head = encode_scalar(first[0] as u32);
        assert(head + (printed(rest) + printed(second)) =~= (head + printed(rest)) + printed(
            second,
        ));
    }
}

/// The print-line form puts on the stream the bytes of a print of the same
/// text, followed by exactly one newline byte.
pub proof fn lemma_line_printed(text: Seq<char>)
    ensures
        printed(line_text(text)) == printed(text).push(0x0Au8),
{
    lemma_printed_concat(text, seq!['\n']);
    assert(text.push('\n') =~= text + seq!['\n']);
    let nl = seq!['\n'];
    assert(nl.drop_first() =~= Seq::<char>::empty());
    assert((10u32 & 0x7F) == 10u32) by (bit_vector);
    assert(printed(nl) == encode_scalar(nl[0] as u32) + encode_utf8(nl.drop_first()));
    assert(printed(nl) =~= seq![0x0Au8]);
    assert(printed(text) + seq![0x0Au8] =~= printed(text).push(0x0Au8));
}

} // verus!
