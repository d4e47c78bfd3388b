use vstd::prelude::*;

verus! {

/// The bytes that a run writes to standard output: `hi!` and a newline.
pub open spec fn greeting_bytes() -> Seq<u8> {
    seq![104u8, 105u8, 33u8, 10u8]
}

/// What a run writes to standard output, given its argument count and vector.
pub open spec fn output_of(argc: int, argv: Seq<String>) -> Seq<u8> {
    greeting_bytes()
}

/// The status a run returns, given its argument count and vector.
pub open spec fn status_of(argc: int, argv: Seq<String>) -> int {
    0
}

/// The result of one normal run: the bytes for standard output and the
/// status code handed back to the platform.
pub struct Outcome {
    pub output: Vec<u8>,
    pub status: isize,
}

/// Builds the greeting that the entry point writes.
pub fn greeting() -> (r: Vec<u8>)
    ensures
        r@ == greeting_bytes(),
{
    let r: Vec<u8> = vec![104u8, 105u8, 33u8, 10u8];
    assert(r@ =~= greeting_bytes());
    r
}

/// The entry point's work: the arguments are accepted and not inspected;
/// the run writes the greeting and succeeds.
pub fn entry(argc: isize, argv: &Vec<String>) -> (r: Outcome)
    ensures
        r.output@ == output_of(argc as int, argv@),
        r.status as int == status_of(argc as int, argv@),
        r.output@ == greeting_bytes(),
        r.status == 0,
{
    Outcome { output: greeting(), status: 0 }
}

/// Whatever the argument count and vector, a run writes exactly `hi!\n`
/// and returns status 0.
pub proof fn lemma_every_run_greets(argc: int, argv: Seq<String>)
    ensures
        output_of(argc, argv) == greeting_bytes(),
        status_of(argc, argv) == 0,
{
}

/// The output and status do not depend on the input: two runs with any two
/// argument counts and vectors write the same bytes and return the same status.
pub proof fn lemma_output_independent_of_args(
    argc1: int,
    argv1: Seq<String>,
    argc2: int,
    argv2: Seq<String>,
)
    ensures
        output_of(argc1, argv1) == output_of(argc2, argv2),
        status_of(argc1, argv1) == status_of(argc2, argv2),
{
}

} // verus!
