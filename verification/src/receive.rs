use vstd::prelude::*;
use crate::client::Client;
use crate::msg::Message;

verus! {

/// The line delimiter on the wire.
pub open spec fn newline() -> u8 {
    10
}

/// A carriage return, tolerated as a trailing artifact of the delimiter.
pub open spec fn carriage_return() -> u8 {
    13
}

/// The rename command prefix `/nick ` (with its trailing space).
pub open spec fn nick_prefix() -> Seq<u8> {
    seq![47u8, 110u8, 105u8, 99u8, 107u8, 32u8]
}

/// The separator between a display name and the chat text: ` > `.
pub open spec fn separator() -> Seq<u8> {
    seq![32u8, 62u8, 32u8]
}

/// A well-formed wire line: non-empty and terminated by the delimiter.
pub open spec fn is_line(l: Seq<u8>) -> bool {
    l.len() > 0 && l.last() == newline()
}

/// The content of a wire line: everything before the delimiter.
pub open spec fn content_of(l: Seq<u8>) -> Seq<u8>
    recommends
        is_line(l),
{
    l.drop_last()
}

/// Whether a line's content is the rename command.
pub open spec fn is_nick_cmd(c: Seq<u8>) -> bool {
    c.len() >= 6 && c.subrange(0, 6) == nick_prefix()
}

/// Drops one trailing carriage return, if present.
pub open spec fn strip_cr(s: Seq<u8>) -> Seq<u8> {
    if s.len() > 0 && s.last() == carriage_return() {
        s.drop_last()
    } else {
        s
    }
}

/// The name carried by a rename command: what follows the prefix, with a
/// trailing delimiter artifact stripped.
pub open spec fn nick_of(c: Seq<u8>) -> Seq<u8>
    recommends
        is_nick_cmd(c),
{
    strip_cr(c.skip(6))
}

/// The broadcast text for a chat line: `<nick> > <content>`.
pub open spec fn chat_text(nick: Seq<u8>, c: Seq<u8>) -> Seq<u8> {
    nick + separator() + c
}

/// The display name after one line is processed: a rename command installs
/// the carried name, any other line leaves the name alone.
pub open spec fn next_nick(nick: Seq<u8>, l: Seq<u8>) -> Seq<u8> {
    if is_nick_cmd(content_of(l)) {
        nick_of(content_of(l))
    } else {
        nick
    }
}

/// What the Receive Flow observed while reading one line.
pub enum ReadEvent {
    /// A full line, delimiter included.
    Line(Vec<u8>),
    /// The peer closed its half of the connection.
    Eof,
    /// The transport failed.
    ReadError,
}

/// What one Receive Flow step decided.
pub enum ReceiveOutcome {
    /// The display name was replaced; read the next line.
    Renamed,
    /// Publish this message to the broadcast medium, then read the next line.
    Publish(Message),
    /// The flow reached its terminal state.
    Close,
}

/// Whether a byte vector's content is the rename command.
fn starts_with_nick_prefix(c: &Vec<u8>) -> (r: bool)
    ensures
        r == is_nick_cmd(c@),
{
    let r = c.len() >= 6 && c[0] == 47 && c[1] == 110 && c[2] == 105 && c[3] == 99
        && c[4] == 107 && c[5] == 32;
    proof {
        if c@.len() >= 6 {
            assert(c@.subrange(0, 6) == nick_prefix() <==> (c@[0] == 47 && c@[1] == 110
                && c@[2] == 105 && c@[3] == 99 && c@[4] == 107 && c@[5] == 32)) by {
                if c@[0] == 47 && c@[1] == 110 && c@[2] == 105 && c@[3] == 99 && c@[4] == 107
                    && c@[5] == 32 {
                    assert(c@.subrange(0, 6) =~= nick_prefix());
                }
                if c@.subrange(0, 6) == nick_prefix() {
                    assert(c@[0] == c@.subrange(0, 6)[0]);
                    assert(c@[1] == c@.subrange(0, 6)[1]);
                    assert(c@[2] == c@.subrange(0, 6)[2]);
                    assert(c@[3] == c@.subrange(0, 6)[3]);
                    assert(c@[4] == c@.subrange(0, 6)[4]);
                    assert(c@[5] == c@.subrange(0, 6)[5]);
                }
            }
        }
    }
    r
}

/// Appends all of `src` to `dst`.
fn append_bytes(dst: &mut Vec<u8>, src: &Vec<u8>)
    ensures
        final(dst)@ == old(dst)@ + src@,
{
    let mut i: usize = 0;
    while i < src.len()
        invariant
            i <= src@.len(),
            dst@ == old(dst)@ + src@.subrange(0, i as int),
        decreases src@.len() - i,
    {
        let b = src[i];
        dst.push(b);
        i = i + 1;
        proof {
            assert(dst@ =~= old(dst)@ + src@.subrange(0, i as int));
        }
    }
    proof {
        assert(old(dst)@ + src@.subrange(0, src@.len() as int) =~= old(dst)@ + src@);
    }
}

/// One step of the Receive Flow state machine.
///
/// A read failure or end-of-stream closes the flow. A rename command
/// replaces the display name (no validation: empty and duplicate names are
/// permitted). Any other line becomes a broadcast message carrying this
/// client's id and the text `<nick> > <content>`, where `<nick>` is the
/// display name at the moment of the step. The line's delimiter is
/// stripped before processing.
pub fn receive_step(client: &mut Client, ev: ReadEvent) -> (r: ReceiveOutcome)
    requires
        ev matches ReadEvent::Line(l) ==> is_line(l@),
    ensures
        final(client).id == old(client).id,
        (ev is Eof || ev is ReadError) ==> r is Close && final(client).nick@ == old(
            client,
        ).nick@,
        ev matches ReadEvent::Line(l) ==> final(client).nick@ == next_nick(
            old(client).nick@,
            l@,
        ),
        ev matches ReadEvent::Line(l) ==> (is_nick_cmd(content_of(l@)) ==> r is Renamed),
        ev matches ReadEvent::Line(l) ==> (!is_nick_cmd(content_of(l@)) ==> (r matches
            ReceiveOutcome::Publish(m) && m.sender_id == old(client).id && m.text@ == chat_text(
            old(client).nick@,
            content_of(l@),
        ))),
{
    match ev {
        ReadEvent::Eof => ReceiveOutcome::Close,
        ReadEvent::ReadError => ReceiveOutcome::Close,
        ReadEvent::Line(line) => {
            let mut content = line;
            content.pop();
            if starts_with_nick_prefix(&content) {
                let mut nick: Vec<u8> = Vec::new();
                let mut i: usize = 6;
                while i < content.len()
                    invariant
                        6 <= i <= content@.len(),
                        content@.len() >= 6,
                        nick@ == content@.subrange(6, i as int),
                    decreases content@.len() - i,
                {
                    let b = content[i];
                    nick.push(b);
                    i = i + 1;
                    proof {
                        assert(nick@ =~= content@.subrange(6, i as int));
                    }
                }
                proof {
                    assert(content@.subrange(6, content@.len() as int) =~= content@.skip(6));
                }
                if nick.len() > 0 && nick[nick.len() - 1] == 13 {
                    nick.pop();
                    proof {
                        assert(nick@ =~= strip_cr(content@.skip(6)));
                    }
                }
                client.set_nick(nick);
                ReceiveOutcome::Renamed
            } else {
                let mut text: Vec<u8> = Vec::new();
                append_bytes(&mut text, &client.nick);
                text.push(32);
                text.push(62);
                text.push(32);
                append_bytes(&mut text, &content);
                proof {
                    assert(text@ =~= chat_text(client.nick@, content@));
                }
                ReceiveOutcome::Publish(Message { sender_id: client.id, text })
            }
        },
    }
}

/// A line framed as a rename command for `name`.
pub open spec fn nick_cmd_line(name: Seq<u8>) -> Seq<u8> {
    nick_prefix() + name + seq![newline()]
}

/// Framing inverts command framing: the content of `/nick <name>\n` is
/// recognised as a rename command, and the name it installs is `<name>`
/// itself (with a trailing carriage return, if any, stripped).
pub proof fn lemma_nick_cmd_parses(name: Seq<u8>)
    ensures
        is_line(nick_cmd_line(name)),
        is_nick_cmd(content_of(nick_cmd_line(name))),
        nick_of(content_of(nick_cmd_line(name))) == strip_cr(name),
{
    let l = nick_cmd_line(name);
    assert(l.last() == newline());
    assert(content_of(l) =~= nick_prefix() + name);
    let c = content_of(l);
    assert(c.subrange(0, 6) =~= nick_prefix());
    assert(c.skip(6) =~= name);
}

/// Rename idempotence of framing: after a `/nick <name>` line, any chat
/// line `l` is broadcast as exactly `<name> > <content of l>` — the name
/// installed by the command is the name the framing uses, unchanged.
pub proof fn lemma_rename_framing(nick0: Seq<u8>, name: Seq<u8>, l: Seq<u8>)
    requires
        is_line(l),
        !is_nick_cmd(content_of(l)),
    ensures
        chat_text(next_nick(nick0, nick_cmd_line(name)), content_of(l)) == strip_cr(name)
            + separator() + content_of(l),
{
    lemma_nick_cmd_parses(name);
}

/// Buffer reset: the text broadcast for a line is built from that line's
/// own content and the current display name alone. A preceding chat line
/// leaves the name unchanged, so no byte of it can leak into the next
/// broadcast: the second line's text is the same whatever was read first.
pub proof fn lemma_buffer_reset(nick0: Seq<u8>, l1: Seq<u8>, l2: Seq<u8>)
    requires
        is_line(l1),
        !is_nick_cmd(content_of(l1)),
        is_line(l2),
        !is_nick_cmd(content_of(l2)),
    ensures
        chat_text(next_nick(nick0, l1), content_of(l2)) == chat_text(nick0, content_of(l2)),
        chat_text(next_nick(nick0, l1), content_of(l2)) == nick0 + separator() + l2.drop_last(),
{
}

/// Rename atomicity: a broadcast text always embeds one complete value of
/// the display name — the value the record held when the line was
/// processed — never a mixture of an old and a new name.
pub proof fn lemma_rename_atomic(n_old: Seq<u8>, n_new: Seq<u8>, l: Seq<u8>)
    requires
        is_line(l),
        !is_nick_cmd(content_of(l)),
    ensures
        chat_text(n_old, content_of(l)) == n_old + separator() + content_of(l),
        chat_text(n_new, content_of(l)) == n_new + separator() + content_of(l),
{
}

} // verus!
