use vstd::prelude::*;

use vstd::string::StringSliceAdditionalSpecFns;

use crate::bytes::to_vec;

verus! {

/// `./tmp_normalized_`: temporary outputs go to the working directory.
pub open spec fn temp_prefix() -> Seq<u8> {
    seq![46u8, 47, 116, 109, 112, 95, 110, 111, 114, 109, 97, 108, 105, 122, 101, 100, 95]
}

/// The filter chain handed to the tool: speech dynamic-range normalisation,
/// then loudness normalisation to -16 LUFS, -2 dBTP true peak and a loudness
/// range of 11.
pub open spec fn filter_chain() -> Seq<u8> {
    "speechnorm=e=6.25:r=0.00001:l=1, loudnorm=I=-16:TP=-2:LRA=11".spec_bytes()
}

/// One byte of a path as it stands in a temporary file name: `/` becomes
/// `%2F` and `%` becomes `%25`, so that the name is flat and still tells
/// every path apart.
pub open spec fn escape_byte(b: u8) -> Seq<u8> {
    if b == 47 {
        seq![37u8, 50, 70]
    } else if b == 37 {
        seq![37u8, 50, 53]
    } else {
        seq![b]
    }
}

pub open spec fn escaped(p: Seq<u8>) -> Seq<u8>
    decreases p.len(),
{
    if p.len() == 0 {
        seq![]
    } else {
        escape_byte(p[0]) + escaped(p.drop_first())
    }
}

/// The temporary output for the file at `input`, keyed by its whole path.
pub open spec fn temp_path(input: Seq<u8>) -> Seq<u8> {
    temp_prefix() + escaped(input)
}

/// The arguments of one tool run: read `input`, apply the filter chain,
/// overwrite and write `temp`.
pub open spec fn tool_args(input: Seq<u8>, temp: Seq<u8>) -> Seq<Seq<u8>> {
    seq![seq![45u8, 105], input, seq![45u8, 97, 102], filter_chain(), seq![45u8, 121], temp]
}

pub proof fn lemma_escaped_push(p: Seq<u8>, b: u8)
    ensures
        escaped(p.push(b)) == escaped(p) + escape_byte(b),
    decreases p.len(),
{
    if p.len() == 0 {
        assert(p.push(b).drop_first() =~= Seq::<u8>::empty());
        assert(p.push(b)[0] == b);
        assert(escaped(p.push(b).drop_first()) == Seq::<u8>::empty());
        assert(escaped(p) == Seq::<u8>::empty());
        assert(escaped(p.push(b)) =~= escape_byte(b) + Seq::<u8>::empty());
    } else {
        assert(p.push(b).drop_first() =~= p.drop_first().push(b));
        lemma_escaped_push(p.drop_first(), b);
        assert(escaped(p.push(b)) =~= escaped(p) + escape_byte(b));
    }
}

pub proof fn lemma_escaped_len(p: Seq<u8>)
    ensures
        escaped(p).len() >= p.len(),
    decreases p.len(),
{
    if p.len() > 0 {
        lemma_escaped_len(p.drop_first());
    }
}

/// Two different files never share a temporary output.
pub proof fn lemma_temp_paths_distinct(a: Seq<u8>, b: Seq<u8>)
    requires
        a != b,
    ensures
        temp_path(a) != temp_path(b),
{
    if escaped(a) == escaped(b) {
        lemma_escaped_injective(a, b);
    }
    assert(temp_path(a).subrange(temp_prefix().len() as int, temp_path(a).len() as int) =~= escaped(a));
    assert(temp_path(b).subrange(temp_prefix().len() as int, temp_path(b).len() as int) =~= escaped(b));
}

proof fn lemma_escaped_injective(a: Seq<u8>, b: Seq<u8>)
    requires
        escaped(a) == escaped(b),
    ensures
        a == b,
    decreases a.len(),
{
    if a.len() == 0 || b.len() == 0 {
        if a.len() != 0 || b.len() != 0 {
            lemma_escaped_len(a);
            lemma_escaped_len(b);
        }
        assert(a =~= b);
    } else {
        let ea = escape_byte(a[0]);
        let eb = escape_byte(b[0]);
        let s = escaped(a);
        assert(s == ea + escaped(a.drop_first()));
        assert(s == eb + escaped(b.drop_first()));
        assert(s[0] == ea[0] && s[0] == eb[0]);
        if s[0] == 37 {
            assert(s[2] == ea[2] && s[2] == eb[2]);
        }
        assert(a[0] == b[0]);
        assert(escaped(a.drop_first()) =~= s.subrange(ea.len() as int, s.len() as int));
        assert(escaped(b.drop_first()) =~= s.subrange(eb.len() as int, s.len() as int));
        lemma_escaped_injective(a.drop_first(), b.drop_first());
        assert(a =~= seq![a[0]] + a.drop_first());
        assert(b =~= seq![b[0]] + b.drop_first());
    }
}

/// Computes the temporary output path for the file at `input`.
pub fn temp_output_path(input: &[u8]) -> (r: Vec<u8>)
    ensures
        r@ == temp_path(input@),
        r@ != input@,
{
    let mut r = vec![46u8, 47, 116, 109, 112, 95, 110, 111, 114, 109, 97, 108, 105, 122, 101, 100, 95];
    assert(r@ =~= temp_prefix());
    let mut i: usize = 0;
    while i < input.len()
        invariant
            i <= input@.len(),
            r@ == temp_prefix() + escaped(input@.subrange(0, i as int)),
        decreases input@.len() - i,
    {
        let b = input[i];
        proof {
            lemma_escaped_push(input@.subrange(0, i as int), b);
            assert(input@.subrange(0, i + 1) =~= input@.subrange(0, i as int).push(b));
        }
        let ghost before = r@;
        if b == 47 {
            r.push(37u8);
            r.push(50u8);
            r.push(70u8);
        } else if b == 37 {
            r.push(37u8);
            r.push(50u8);
            r.push(53u8);
        } else {
            r.push(b);
        }
        assert(r@ =~= before + escape_byte(b));
        i = i + 1;
    }
    assert(input@.subrange(0, input@.len() as int) =~= input@);
    proof {
        lemma_escaped_len(input@);
    }
    r
}

/// One run of the normalisation tool.
#[derive(Debug)]
pub struct NormalizeJob {
    /// Where the tool writes its output before it replaces the original.
    pub temp: Vec<u8>,
    /// The tool's arguments.
    pub args: Vec<Vec<u8>>,
}

pub open spec fn args_view(args: Seq<Vec<u8>>) -> Seq<Seq<u8>> {
    args.map_values(|a: Vec<u8>| a@)
}

/// Plans the normalisation of the file at `path`: the tool reads the file and
/// writes a temporary output next to the working directory, keyed by the whole
/// path, so the original is never written in place.
pub fn normalize_audio_file(path: &[u8]) -> (r: NormalizeJob)
    ensures
        r.temp@ == temp_path(path@),
        r.temp@ != path@,
        args_view(r.args@) == tool_args(path@, r.temp@),
{
    let temp = temp_output_path(path);
    let filter = to_vec("speechnorm=e=6.25:r=0.00001:l=1, loudnorm=I=-16:TP=-2:LRA=11".as_bytes());
    let mut args: Vec<Vec<u8>> = Vec::new();
    args.push(vec![45u8, 105]);
    args.push(to_vec(path));
    args.push(vec![45u8, 97, 102]);
    args.push(filter);
    args.push(vec![45u8, 121]);
    args.push(to_vec(temp.as_slice()));
    assert(args_view(args@) =~= tool_args(path@, temp@));
    NormalizeJob { temp, args }
}

/// What to do with the files once the tool has run.
#[derive(Debug)]
pub enum Finish {
    /// Rename the finished output over the original.
    Rename { from: Vec<u8>, to: Vec<u8> },
    /// Delete the output; the original stays as it was.
    Remove { path: Vec<u8> },
}

/// The step after one tool run on the file at `path`: on success the
/// temporary output replaces the original in one rename; on failure the
/// temporary output is deleted and the original is left alone.
pub fn finish(path: &[u8], tool_succeeded: bool) -> (r: Finish)
    ensures
        match r {
            Finish::Rename { from, to } => tool_succeeded && from@ == temp_path(path@) && to@
                == path@,
            Finish::Remove { path: p } => !tool_succeeded && p@ == temp_path(path@) && p@ != path@,
        },
{
    let temp = temp_output_path(path);
    if tool_succeeded {
        Finish::Rename { from: temp, to: to_vec(path) }
    } else {
        Finish::Remove { path: temp }
    }
}

} // verus!
