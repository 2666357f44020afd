//! Extraction of an inbound invocation and dispatch to a handler.
//!
//! In HTTP mode the action and the envelope arrive as the last two
//! positional process arguments (envelope last) and the payload is the fully
//! read byte input; in TCP mode all three arrive framed in the byte input.
//! The extracted action is matched exactly against the registered handler
//! names; an unmatched action falls back to the registered fallback handler,
//! or succeeds as a no-op when none is registered.

use crate::envelope::{spec_parse_envelope, Envelope, EnvelopeView, ParseError};
use crate::framing::{spec_decode_message, decode_message, FrameError};
use crate::merrymake::Transport;
use vstd::prelude::*;
use vstd::string::StringExecFns;
use vstd::utf8::encode_utf8;

verus! {

/// Why an invocation could not be extracted from the process inputs.
#[derive(Clone, Copy, Debug, PartialEq, Eq)]
pub enum DispatchError {
    /// HTTP mode needs at least two positional arguments.
    MissingArgument,
    /// The envelope argument does not parse.
    InvalidEnvelope(ParseError),
    /// The framed TCP-mode input does not decode.
    Frame(FrameError),
}

/// The action, envelope and payload that the process inputs carry, or the
/// first failure met while extracting them.
pub open spec fn spec_extract_invocation(
    mode: Transport,
    args: Seq<Seq<char>>,
    input: Seq<u8>,
) -> Result<(Seq<char>, EnvelopeView, Seq<u8>), DispatchError> {
    match mode {
        Transport::Http => if args.len() < 2 {
            Err(DispatchError::MissingArgument)
        } else {
            match spec_parse_envelope(encode_utf8(args[args.len() - 1])) {
                Err(pe) => Err(DispatchError::InvalidEnvelope(pe)),
                Ok(env) => Ok((args[args.len() - 2], env, input)),
            }
        },
        Transport::Tcp => match spec_decode_message(input) {
            Ok(t) => Ok(t),
            Err(e) => Err(DispatchError::Frame(e)),
        },
    }
}

/// Extract the requested action, the envelope and the payload from the
/// process inputs: the positional arguments and the fully read byte input.
pub fn extract_invocation(mode: Transport, args: &[String], input: &[u8]) -> (r: Result<
    (String, Envelope, Vec<u8>),
    DispatchError,
>)
    ensures
        match r {
            Ok(t) => spec_extract_invocation(mode, args.deep_view(), input@) == Ok::<
                (Seq<char>, EnvelopeView, Seq<u8>),
                DispatchError,
            >((t.0@, t.1@, t.2@)),
            Err(e) => spec_extract_invocation(mode, args.deep_view(), input@) == Err::<
                (Seq<char>, EnvelopeView, Seq<u8>),
                DispatchError,
            >(e),
        },
{
    match mode {
        Transport::Http => {
            if args.len() < 2 {
                return Err(DispatchError::MissingArgument);
            }
            let envelope_arg: &String = match args.get(args.len() - 1) {
                Some(s) => s,
                None => unreached(),
            };
            let action_arg: &String = match args.get(args.len() - 2) {
                Some(s) => s,
                None => unreached(),
            };
            let envelope = match Envelope::from_str(envelope_arg.as_str()) {
                Ok(env) => env,
                Err(pe) => {
                    return Err(DispatchError::InvalidEnvelope(pe));
                },
            };
            Ok((action_arg.clone(), envelope, vstd::slice::slice_to_vec(input)))
        },
        Transport::Tcp => match decode_message(input) {
            Ok(t) => Ok(t),
            Err(e) => Err(DispatchError::Frame(e)),
        },
    }
}

/// One action handler, implemented by the host application.  A handler
/// receives the payload and the envelope of the invocation, and reports its
/// own failure as a message.
pub trait Handler {
    fn handle(&self, payload: Vec<u8>, envelope: Envelope) -> Result<(), String>;
}

/// Whether some registered entry carries exactly the action name.
pub open spec fn spec_action_matches<H>(registered: Seq<(String, H)>, action: Seq<char>) -> bool {
    exists|i: int| 0 <= i < registered.len() && registered[i].0@ == action
}

/// Route an invocation to the first handler registered under exactly the
/// action name, handing it the payload and the envelope.  When no name
/// matches, the fallback handler runs if one is registered; with no match
/// and no fallback the dispatch succeeds as a no-op.  A handler's failure
/// is returned unchanged.
pub fn dispatch<H: Handler>(
    registered: &Vec<(String, H)>,
    init: Option<&H>,
    action: &str,
    envelope: Envelope,
    payload: Vec<u8>,
) -> (r: Result<(), String>)
    ensures
        !spec_action_matches(registered@, action@) && init is None ==> r is Ok,
{
    let action_owned = String::from_str(action);
    let mut i: usize = 0;
    while i < registered.len()
        invariant
            i <= registered@.len(),
            action_owned@ == action@,
            forall|j: int| 0 <= j < i ==> registered@[j].0@ != action@,
        decreases registered@.len() - i,
    {
        let entry: &(String, H) = match registered.get(i) {
            Some(e) => e,
            None => unreached(),
        };
        if entry.0 == action_owned {
            return entry.1.handle(payload, envelope);
        }
        i += 1;
    }
    match init {
        Some(h) => h.handle(payload, envelope),
        None => Ok(()),
    }
}

} // verus!
