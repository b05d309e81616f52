//! Script assembly: the optional prelude, a newline, and the artifact.

use vstd::prelude::*;
use vstd::utf8::encode_utf8;

verus! {

/// The script made of an optional prelude and the artifact: the prelude,
/// one newline and the artifact, or the artifact alone.
pub open spec fn assembled(prelude: Option<Seq<char>>, artifact: Seq<char>) -> Seq<char> {
    match prelude {
        Some(setup) => setup + seq!['\n'] + artifact,
        None => artifact,
    }
}

/// The text of an optional string.
pub open spec fn optional_text(text: Option<&str>) -> Option<Seq<char>> {
    match text {
        Some(t) => Some(t@),
        None => None,
    }
}

/// Assembles the script that is handed to the runtime.
pub fn assemble_script(prelude: Option<&str>, artifact: &str) -> (script: String)
    ensures
        script@ == assembled(optional_text(prelude), artifact@),
{
    let mut script = String::new();
    if let Some(setup) = prelude {
        script.append(setup);
        script.append("\n");
        proof {
            reveal_strlit("\n");
            assert("\n"@ == seq!['\n']);
        }
    }
    script.append(artifact);
    assert(script@ =~= assembled(optional_text(prelude), artifact@));
    script
}

/// The assembled script ends with the artifact, unchanged. Where there is a
/// prelude the script starts with it, and exactly one newline stands between
/// the prelude and the artifact.
pub proof fn lemma_assembled_shape(prelude: Option<Seq<char>>, artifact: Seq<char>)
    ensures
        ({
            let script = assembled(prelude, artifact);
            &&& artifact.len() <= script.len()
            &&& script.subrange(script.len() - artifact.len(), script.len() as int) == artifact
            &&& prelude is None ==> script == artifact
            &&& prelude matches Some(setup) ==> {
                &&& script.len() == setup.len() + 1 + artifact.len()
                &&& script.subrange(0, setup.len() as int) == setup
                &&& script[setup.len() as int] == '\n'
            }
        }),
{
    let script = assembled(prelude, artifact);
    assert(script.subrange(script.len() - artifact.len(), script.len() as int) =~= artifact);
    if let Some(setup) = prelude {
        assert(script.subrange(0, setup.len() as int) =~= setup);
    }
}

/// Assembling with a prelude and taking the prelude and its newline away
/// gives the artifact back; so does assembling without a prelude.
pub proof fn lemma_assembled_round_trip(prelude: Option<Seq<char>>, artifact: Seq<char>)
    ensures
        match prelude {
            Some(setup) => assembled(prelude, artifact).skip(setup.len() as int + 1) == artifact,
            None => assembled(prelude, artifact) == artifact,
        },
{
    if let Some(setup) = prelude {
        assert(assembled(prelude, artifact).skip(setup.len() as int + 1) =~= artifact);
    }
}

/// The UTF-8 encoding of a text in two parts is the encoding of the first
/// part followed by that of the second.
pub proof fn lemma_encoding_of_parts(first: Seq<char>, second: Seq<char>)
    ensures
        encode_utf8(first + second) == encode_utf8(first) + encode_utf8(second),
    decreases first.len(),
{
    if first.len() == 0 {
        assert(first + second =~= second);
        assert(encode_utf8(first) + encode_utf8(second) =~= encode_utf8(second));
    } else {
        lemma_encoding_of_parts(first.drop_first(), second);
        assert((first + second).drop_first() =~= first.drop_first() + second);
        assert((first + second)[0] == first[0]);
        assert(encode_utf8(first + second) =~= encode_utf8(first) + encode_utf8(second));
    }
}

/// Byte for byte: the script is the bytes of the prelude, one newline byte
/// and the bytes of the artifact, or the bytes of the artifact alone.
pub proof fn lemma_assembled_bytes(prelude: Option<Seq<char>>, artifact: Seq<char>)
    ensures
        encode_utf8(assembled(prelude, artifact)) == match prelude {
            Some(setup) => encode_utf8(setup) + seq![0x0Au8] + encode_utf8(artifact),
            None => encode_utf8(artifact),
        },
{
    if let Some(setup) = prelude {
        lemma_encoding_of_parts(setup + seq!['\n'], artifact);
        lemma_encoding_of_parts(setup, seq!['\n']);
        let newline = seq!['\n'];
        assert(newline.drop_first() =~= Seq::<char>::empty());
        assert(encode_utf8(newline.drop_first()) =~= Seq::<u8>::empty());
        assert(newline[0] as u32 == 0x0Au32);
        assert((0x0Au32 & 0x7F) as u8 == 0x0Au8) by (bit_vector);
        assert(encode_utf8(newline) =~= seq![0x0Au8]);
    }
}

} // verus!
