//! Output naming: every task's file name is a deterministic function of the
//! input stem and the task's two selectors, and no two tasks of one input
//! can name the same file.
//!
//! The full mix keeps the bare stem; an isolated stem carries the
//! one-based instrument number and either the channel number or `full`,
//! both zero-padded to four places; the codec's canonical extension comes
//! last.

use vstd::prelude::*;
use vstd::string::StringExecFns;
use crate::digits::{
    padded_dec, padded_dec_string, is_digit, lemma_padded_dec_digits, lemma_padded_dec_injective,
    lemma_digit_run_prefix,
};
use crate::tasks::Selector;

verus! {

/// The output codec, which fixes the file extension.
#[derive(Clone, Copy, Debug, PartialEq, Eq, Structural)]
pub enum WriteFormat {
    Flac,
    Wav,
    Vorbis,
    Mp3,
}

/// The `_chan_` separator between the instrument and channel fields.
pub open spec fn chan_tag() -> Seq<char> {
    seq!['_', 'c', 'h', 'a', 'n', '_']
}

/// The channel field: `full` when every channel plays, else the padded
/// channel number.
pub open spec fn chan_field(channel: Selector) -> Seq<char> {
    match channel {
        Selector::All => seq!['f', 'u', 'l', 'l'],
        Selector::One(c) => padded_dec(c as nat),
    }
}

/// The instrument field is one-based; zero stands for all instruments.
pub open spec fn instrument_code(instrument: Selector) -> nat {
    match instrument {
        Selector::All => 0,
        Selector::One(i) => i as nat + 1,
    }
}

/// The file name before the extension: the bare stem for the full mix,
/// else the stem with the instrument and channel fields appended.
pub open spec fn base_name_spec(stem: Seq<char>, channel: Selector, instrument: Selector)
    -> Seq<char> {
    if channel is All && instrument is All {
        stem
    } else {
        stem + seq!['_'] + padded_dec(instrument_code(instrument)) + chan_tag() + chan_field(
            channel,
        )
    }
}

/// The canonical extension of each codec.
pub open spec fn extension_chars(format: WriteFormat) -> Seq<char> {
    match format {
        WriteFormat::Flac => seq!['f', 'l', 'a', 'c'],
        WriteFormat::Wav => seq!['w', 'a', 'v'],
        WriteFormat::Vorbis => seq!['o', 'g', 'g'],
        WriteFormat::Mp3 => seq!['m', 'p', '3'],
    }
}

/// The complete output file name.
pub open spec fn file_name_spec(
    stem: Seq<char>,
    channel: Selector,
    instrument: Selector,
    format: WriteFormat,
) -> Seq<char> {
    base_name_spec(stem, channel, instrument) + seq!['.'] + extension_chars(format)
}

/// Builds the file name before the extension.
pub fn base_name(stem: &str, channel: Selector, instrument: Selector) -> (name: String)
    requires
        instrument matches Selector::One(i) ==> i < u32::MAX,
    ensures
        name@ == base_name_spec(stem@, channel, instrument),
{
    if channel == Selector::All && instrument == Selector::All {
        return String::from_str(stem);
    }
    let mut name = String::from_str(stem);
    proof {
        reveal_strlit("_");
    }
    name.append("_");
    let ghost after_stem = name@;
    proof {
        assert(after_stem =~= stem@ + seq!['_']);
    }
    let code: u32 = match instrument {
        Selector::All => 0,
        Selector::One(i) => i + 1,
    };
    let inst_text = padded_dec_string(code);
    name.append(inst_text.as_str());
    proof {
        reveal_strlit("_chan_");
        assert("_chan_"@ =~= chan_tag());
    }
    name.append("_chan_");
    match channel {
        Selector::All => {
            proof {
                reveal_strlit("full");
                assert("full"@ =~= chan_field(Selector::All));
            }
            name.append("full");
        },
        Selector::One(c) => {
            let chan_text = padded_dec_string(c);
            name.append(chan_text.as_str());
        },
    }
    proof {
        assert(name@ =~= base_name_spec(stem@, channel, instrument));
    }
    name
}

/// The extension text of a codec.
pub fn extension_str(format: WriteFormat) -> (s: &'static str)
    ensures
        s@ == extension_chars(format),
{
    match format {
        WriteFormat::Flac => {
            proof {
                reveal_strlit("flac");
                assert("flac"@ =~= extension_chars(WriteFormat::Flac));
            }
            "flac"
        },
        WriteFormat::Wav => {
            proof {
                reveal_strlit("wav");
                assert("wav"@ =~= extension_chars(WriteFormat::Wav));
            }
            "wav"
        },
        WriteFormat::Vorbis => {
            proof {
                reveal_strlit("ogg");
                assert("ogg"@ =~= extension_chars(WriteFormat::Vorbis));
            }
            "ogg"
        },
        WriteFormat::Mp3 => {
            proof {
                reveal_strlit("mp3");
                assert("mp3"@ =~= extension_chars(WriteFormat::Mp3));
            }
            "mp3"
        },
    }
}

/// Builds the complete output file name for one task and codec.
pub fn file_name(
    stem: &str,
    channel: Selector,
    instrument: Selector,
    format: WriteFormat,
) -> (name: String)
    requires
        instrument matches Selector::One(i) ==> i < u32::MAX,
    ensures
        name@ == file_name_spec(stem@, channel, instrument, format),
{
    let mut name = base_name(stem, channel, instrument);
    proof {
        reveal_strlit(".");
        assert("."@ =~= seq!['.']);
    }
    name.append(".");
    name.append(extension_str(format));
    proof {
        assert(name@ =~= file_name_spec(stem@, channel, instrument, format));
    }
    name
}

/// Names are collision-free: for one stem, two selector pairs that name the
/// same file are the same pair.
pub proof fn lemma_base_name_collision_free(
    stem: Seq<char>,
    channel1: Selector,
    instrument1: Selector,
    channel2: Selector,
    instrument2: Selector,
)
    requires
        base_name_spec(stem, channel1, instrument1) == base_name_spec(
            stem,
            channel2,
            instrument2,
        ),
    ensures
        channel1 == channel2,
        instrument1 == instrument2,
{
    let full1 = channel1 is All && instrument1 is All;
    let full2 = channel2 is All && instrument2 is All;
    lemma_padded_dec_digits(instrument_code(instrument1));
    lemma_padded_dec_digits(instrument_code(instrument2));
    if full1 != full2 {
        assert(base_name_spec(stem, channel1, instrument1).len() != base_name_spec(
            stem,
            channel2,
            instrument2,
        ).len());
    } else if !full1 && !full2 {
        let p1 = padded_dec(instrument_code(instrument1));
        let p2 = padded_dec(instrument_code(instrument2));
        let t1 = chan_tag() + chan_field(channel1);
        let t2 = chan_tag() + chan_field(channel2);
        let pre = stem + seq!['_'];
        assert(pre + (p1 + t1) =~= base_name_spec(stem, channel1, instrument1));
        assert(pre + (p2 + t2) =~= base_name_spec(stem, channel2, instrument2));
        assert(p1 + t1 =~= p2 + t2) by {
            let n1 = pre + (p1 + t1);
            let n2 = pre + (p2 + t2);
            assert(n1.len() == n2.len());
            assert((p1 + t1).len() == (p2 + t2).len());
            assert forall|i: int| 0 <= i < (p1 + t1).len() implies (p1 + t1)[i] == (p2 + t2)[i]
            by {
                assert(n1[pre.len() + i] == (p1 + t1)[i]);
                assert(n2[pre.len() + i] == (p2 + t2)[i]);
            }
        }
        assert(t1[0] == '_' && t2[0] == '_');
        assert(!is_digit('_'));
        lemma_digit_run_prefix(p1, t1, p2, t2);
        lemma_padded_dec_injective(instrument_code(instrument1), instrument_code(instrument2));
        assert(instrument1 == instrument2);
        let f1 = chan_field(channel1);
        let f2 = chan_field(channel2);
        assert(f1 =~= f2) by {
            assert(t1.len() == t2.len());
            assert(f1.len() == f2.len());
            assert forall|i: int| 0 <= i < f1.len() implies f1[i] == f2[i] by {
                assert(t1[chan_tag().len() + i] == f1[i]);
                assert(t2[chan_tag().len() + i] == f2[i]);
            }
        }
        if channel1 is All && channel2 is One {
            lemma_padded_dec_digits(channel2->One_0 as nat);
            assert(f1[0] == 'f');
            assert(is_digit(f2[0]));
            assert(false);
        }
        if channel1 is One && channel2 is All {
            lemma_padded_dec_digits(channel1->One_0 as nat);
            assert(f2[0] == 'f');
            assert(is_digit(f1[0]));
            assert(false);
        }
        if channel1 is One && channel2 is One {
            lemma_padded_dec_injective(channel1->One_0 as nat, channel2->One_0 as nat);
        }
    }
}

/// Collision-freedom carries over to the complete names: one stem, one
/// codec, two selector pairs that give the same file name are one pair.
pub proof fn lemma_file_name_collision_free(
    stem: Seq<char>,
    channel1: Selector,
    instrument1: Selector,
    channel2: Selector,
    instrument2: Selector,
    format: WriteFormat,
)
    requires
        file_name_spec(stem, channel1, instrument1, format) == file_name_spec(
            stem,
            channel2,
            instrument2,
            format,
        ),
    ensures
        channel1 == channel2,
        instrument1 == instrument2,
{
    let b1 = base_name_spec(stem, channel1, instrument1);
    let b2 = base_name_spec(stem, channel2, instrument2);
    let suffix = seq!['.'] + extension_chars(format);
    assert(b1 + suffix =~= file_name_spec(stem, channel1, instrument1, format));
    assert(b2 + suffix =~= file_name_spec(stem, channel2, instrument2, format));
    assert(b1.len() == b2.len()) by {
        assert((b1 + suffix).len() == (b2 + suffix).len());
    }
    assert(b1 =~= b2) by {
        assert forall|i: int| 0 <= i < b1.len() implies b1[i] == b2[i] by {
            assert((b1 + suffix)[i] == b1[i]);
            assert((b2 + suffix)[i] == b2[i]);
        }
    }
    lemma_base_name_collision_free(stem, channel1, instrument1, channel2, instrument2);
}

/// No two tasks of one input file write the same file: distinct tasks of a
/// matrix always get distinct output names.
pub proof fn lemma_matrix_file_names_distinct(
    stem: Seq<char>,
    meta: crate::SongMetadata,
    flags: crate::tasks::RenderFlags,
    i: int,
    j: int,
    format: WriteFormat,
)
    requires
        meta.is_valid_spec(),
        0 <= i < crate::tasks::task_matrix(meta, flags).len(),
        0 <= j < crate::tasks::task_matrix(meta, flags).len(),
        i != j,
    ensures
        file_name_spec(
            stem,
            crate::tasks::task_matrix(meta, flags)[i].channel,
            crate::tasks::task_matrix(meta, flags)[i].instrument,
            format,
        ) != file_name_spec(
            stem,
            crate::tasks::task_matrix(meta, flags)[j].channel,
            crate::tasks::task_matrix(meta, flags)[j].instrument,
            format,
        ),
{
    let m = crate::tasks::task_matrix(meta, flags);
    if file_name_spec(stem, m[i].channel, m[i].instrument, format) == file_name_spec(
        stem,
        m[j].channel,
        m[j].instrument,
        format,
    ) {
        lemma_file_name_collision_free(
            stem,
            m[i].channel,
            m[i].instrument,
            m[j].channel,
            m[j].instrument,
            format,
        );
        crate::tasks::lemma_matrix_selectors_distinct(meta, flags, i, j);
        assert(false);
    }
}

} // verus!
