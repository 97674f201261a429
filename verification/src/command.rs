//! The argument list of the commit command.

use vstd::prelude::*;

verus! {

/// The characters of each string of a list.
pub open spec fn texts(strings: Seq<String>) -> Seq<Seq<char>> {
    strings.map_values(|s: String| s@)
}

/// The arguments that are passed on: all that were received but the first,
/// which names the program itself.
pub open spec fn forwarded_texts(received: Seq<Seq<char>>) -> Seq<Seq<char>> {
    if received.len() == 0 {
        received
    } else {
        received.subrange(1, received.len() as int)
    }
}

/// The arguments of the commit command: `commit -m <message>` and then what
/// is passed on.
pub open spec fn commit_argument_texts(message: Seq<char>, received: Seq<Seq<char>>) -> Seq<
    Seq<char>,
> {
    seq!["commit"@, "-m"@, message] + forwarded_texts(received)
}

/// Builds the arguments of the commit command from the composed message and
/// the arguments that this program was started with. The message is one
/// argument, whatever it holds.
pub fn commit_arguments(message: &str, received: &Vec<String>) -> (out: Vec<String>)
    ensures
        texts(out@) == commit_argument_texts(message@, texts(received@)),
        out@.len() == 3 + forwarded_texts(texts(received@)).len(),
        out@[0]@ == "commit"@,
        out@[1]@ == "-m"@,
        out@[2]@ == message@,
        forall|i: int| 3 <= i < out@.len() ==> #[trigger] out@[i]@ == received@[i - 2]@,
{
    let ghost head = seq!["commit"@, "-m"@, message@];
    let mut out: Vec<String> = Vec::new();
    out.push(String::from_str("commit"));
    out.push(String::from_str("-m"));
    out.push(String::from_str(message));
    if received.len() == 0 {
        return out;
    }
    let mut i: usize = 1;
    while i < received.len()
        invariant
            1 <= i <= received@.len(),
            texts(out@) == head + texts(received@).subrange(1, i as int),
            out@.len() == i + 2,
            out@[0]@ == "commit"@,
            out@[1]@ == "-m"@,
            out@[2]@ == message@,
            forall|k: int| 3 <= k < out@.len() ==> #[trigger] out@[k]@ == received@[k - 2]@,
        decreases received@.len() - i,
    {
        let ghost before = out@;
        out.push(received[i].clone());
        assert(texts(out@) =~= texts(before).push(received@[i as int]@));
        i += 1;
    }
    out
}

} // verus!
