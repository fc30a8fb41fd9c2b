//! What a chat client puts on the wire for each line its user types.

use vstd::prelude::*;
use vstd::string::*;

use crate::cipher::aes256_base64;
use crate::cipher::Cipher;
use crate::text::trim;
use crate::text::trimmed;

verus! {

/// The line a user types to leave the chat.
pub open spec fn quit_command() -> Seq<char> {
    seq!['q']
}

/// An encrypted message as it travels: the Base64 text, then a newline.
pub open spec fn wire_line(encoded: Seq<char>) -> Seq<char> {
    encoded.push('\n')
}

/// Whether `wire` is exactly one line: it ends in a newline and holds no
/// other.
pub open spec fn is_one_line(wire: Seq<char>) -> bool {
    wire.len() > 0 && wire.last() == '\n' && !wire.drop_last().contains('\n')
}

/// What the client does with one typed line.
#[derive(Debug, PartialEq, Eq)]
pub enum Outgoing {
    /// The user asked to leave: nothing is sent, the connection is shut down.
    Quit,
    /// `wire` is written to the server.
    Send { wire: String },
}

/// [`Outgoing`] over mathematical text.
pub enum OutgoingModel {
    Quit,
    Send { wire: Seq<char> },
}

impl View for Outgoing {
    type V = OutgoingModel;

    open spec fn view(&self) -> OutgoingModel {
        match self {
            Outgoing::Quit => OutgoingModel::Quit,
            Outgoing::Send { wire } => OutgoingModel::Send { wire: wire@ },
        }
    }
}

/// What a client whose passphrase is `key` does with the typed line `typed`:
/// surrounding white space is dropped, `q` alone quits, and anything else,
/// the empty message included, is encrypted and sent as one line.
pub open spec fn outgoing(key: Seq<char>, typed: Seq<char>) -> OutgoingModel {
    if trimmed(typed) == quit_command() {
        OutgoingModel::Quit
    } else {
        OutgoingModel::Send { wire: wire_line(aes256_base64(key, trimmed(typed))) }
    }
}

/// Whether `text` is exactly the quit command.
pub fn is_quit_command(text: &str) -> (quit: bool)
    ensures
        quit == (text@ == quit_command()),
{
    if text.unicode_len() == 1 {
        let only: char = text.get_char(0);
        assert(only == 'q' ==> text@ =~= quit_command());
        only == 'q'
    } else {
        false
    }
}

/// Terminates an encrypted message with the newline that frames it.
pub fn frame_encrypted(encoded: String) -> (wire: String)
    ensures
        wire@ == wire_line(encoded@),
{
    let mut wire = encoded;
    let newline: &str = "\n";
    proof {
        reveal_strlit("\n");
        assert(wire@ + newline@ =~= wire_line(wire@));
    }
    wire.append(newline);
    wire
}

/// Decides what to do with one typed line. A message that is sent travels
/// as exactly one line, and what stands before its newline decrypts, under
/// the same passphrase, to the typed line without its surrounding white
/// space.
pub fn outgoing_for(cipher: &Cipher, typed: &str) -> (out: Outgoing)
    ensures
        out@ == outgoing(cipher.key(), typed@),
        out matches Outgoing::Send { wire } ==> is_one_line(wire@),
        out matches Outgoing::Send { wire } ==> cipher.decrypted(wire@.drop_last()) == Some(
            trimmed(typed@),
        ),
{
    let message: &str = trim(typed);
    if is_quit_command(message) {
        Outgoing::Quit
    } else {
        let encoded = cipher.encrypt(message);
        assert(wire_line(encoded@).drop_last() =~= encoded@);
        Outgoing::Send { wire: frame_encrypted(encoded) }
    }
}

} // verus!
