use vstd::prelude::*;

verus! {

/// The agent process the service's watchdog started: whether it still runs, and the session
/// it runs in.
#[derive(Debug, Clone, Copy, PartialEq, Eq, Structural)]
pub struct AgentChild {
    pub running: bool,
    pub session_id: u32,
}

/// The watchdog starts an agent where none runs, where it has exited, or where the console
/// session has changed under it.
pub open spec fn needs_restart_spec(child: Option<AgentChild>, active_session: u32) -> bool {
    match child {
        None => true,
        Some(c) => !c.running || c.session_id != active_session,
    }
}

/// Whether the watchdog must (re)start the agent for the active console session.
pub fn agent_needs_restart(child: Option<AgentChild>, active_session: u32) -> (restart: bool)
    ensures
        restart == needs_restart_spec(child, active_session),
{
    match child {
        None => true,
        Some(c) => !c.running || c.session_id != active_session,
    }
}

/// The UTF-16 code units of `c`: one unit in the basic multilingual plane, else a surrogate
/// pair.
pub open spec fn utf16_of_char(c: char) -> Seq<u16> {
    let v = (c as u32) as int;
    if v < 0x10000 {
        seq![v as u16]
    } else {
        let w = v - 0x10000;
        seq![(0xD800 + w / 1024) as u16, (0xDC00 + w % 1024) as u16]
    }
}

/// The UTF-16 code units of a string, as `str::encode_utf16` yields them.
pub open spec fn utf16_of(s: Seq<char>) -> Seq<u16>
    decreases s.len(),
{
    if s.len() == 0 {
        Seq::empty()
    } else {
        utf16_of(s.drop_last()) + utf16_of_char(s.last())
    }
}

/// A Windows environment block: each entry in UTF-16 followed by a zero unit, and one more
/// zero unit at the end.
pub open spec fn environment_block_of(entries: Seq<Seq<char>>) -> Seq<u16>
    decreases entries.len(),
{
    if entries.len() == 0 {
        seq![0u16]
    } else {
        let earlier = environment_block_of(entries.drop_last());
        earlier.drop_last() + utf16_of(entries.last()) + seq![0u16, 0u16]
    }
}

fn push_utf16(units: &mut Vec<u16>, text: &str)
    ensures
        final(units)@ == old(units)@ + utf16_of(text@),
{
    let ghost start = units@;
    let ghost s = text@;
    for c in it: text.chars()
        invariant
            it.seq() == s,
            units@ == start + utf16_of(s.take(it.index())),
    {
        assert(s.take(it.index() + 1).drop_last() =~= s.take(it.index()));
        assert(s.take(it.index() + 1).last() == c);
        let v = c as u32;
        proof {
            vstd::utf8::char_is_scalar(c);
        }
        if v < 0x10000 {
            units.push(v as u16);
        } else {
            let w = v - 0x10000;
            units.push((0xD800 + w / 1024) as u16);
            units.push((0xDC00 + w % 1024) as u16);
        }
        assert(units@ =~= start + utf16_of(s.take(it.index() + 1)));
    }
    assert(s.take(s.len() as int) =~= s);
}

/// The environment block that hands `entries` to a new process.
pub fn environment_block(entries: &[String]) -> (block: Vec<u16>)
    ensures
        block@ == environment_block_of(entries@.map_values(|e: String| e@)),
{
    let ghost all = entries@.map_values(|e: String| e@);
    let mut block: Vec<u16> = Vec::new();
    let mut i: usize = 0;
    while i < entries.len()
        invariant
            all == entries@.map_values(|e: String| e@),
            i <= entries@.len(),
            block@ + seq![0u16] == environment_block_of(all.take(i as int)),
        decreases entries@.len() - i,
    {
        assert(all.take(i + 1).drop_last() =~= all.take(i as int));
        assert(all.take(i + 1).last() == entries@[i as int]@);
        let ghost before = block@;
        assert((before + seq![0u16]).drop_last() =~= before);
        push_utf16(&mut block, entries[i].as_str());
        block.push(0);
        proof {
            assert(block@ + seq![0u16] =~= environment_block_of(all.take(i + 1)));
        }
        i = i + 1;
    }
    assert(all.take(entries@.len() as int) =~= all);
    block.push(0);
    block
}

} // verus!
