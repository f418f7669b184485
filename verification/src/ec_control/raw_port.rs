//! The handshake by which registers are reached through `/dev/port`.
//!
//! The embedded controller listens on two I/O ports. A byte read from the
//! command port tells whether the controller has taken the last byte sent
//! to it and whether it has a byte ready. A transfer is a fixed script of
//! waits, sends and receives; [`RawPort`] walks through such a script. The
//! caller asks it what to do on the ports, does it, and tells it what a read
//! delivered.

use vstd::prelude::*;

use crate::error::DeviceFault;

verus! {

/// The port on which commands are sent and the status is read.
pub const COMMAND_PORT: u8 = 0x66;

/// The port on which offsets and values are sent and values are read.
pub const DATA_PORT: u8 = 0x62;

/// The command that announces a read.
pub const EC_COMMAND_READ: u8 = 0x80;

/// The command that announces a write.
pub const EC_COMMAND_WRITE: u8 = 0x81;

/// Number of polls of the status after which a wait gives up.
pub const RAW_PORT_TIMEOUT: u16 = 2000;

/// The bit of the status that is set while the controller has a byte ready.
pub const OUTPUT_BUFFER_FULL: u8 = 0x01;

/// The bit of the status that is set while the controller has not taken the
/// last byte sent.
pub const INPUT_BUFFER_FULL: u8 = 0x02;

/// What a wait is for.
#[derive(Clone, Copy, Debug, PartialEq, Eq, Structural)]
pub enum BufferEmpty {
    /// For the controller to have a byte ready.
    OutputBuffer,
    /// For the controller to have taken the last byte sent.
    InputBuffer,
}

impl BufferEmpty {
    /// Whether a status ends the wait.
    pub open spec fn ready_spec(self, status: u8) -> bool {
        match self {
            BufferEmpty::OutputBuffer => status & OUTPUT_BUFFER_FULL != 0,
            BufferEmpty::InputBuffer => status & INPUT_BUFFER_FULL == 0,
        }
    }

    /// Tells whether a status ends the wait.
    pub fn ready(&self, status: u8) -> (ready: bool)
        ensures
            ready == self.ready_spec(status),
    {
        match self {
            BufferEmpty::OutputBuffer => status & OUTPUT_BUFFER_FULL != 0,
            BufferEmpty::InputBuffer => status & INPUT_BUFFER_FULL == 0,
        }
    }
}

/// One step of a script.
#[derive(Clone, Copy, Debug, PartialEq, Eq, Structural)]
pub enum PortStep {
    /// Poll the status until the wait ends.
    Wait(BufferEmpty),
    /// Send a byte to a port.
    Put { port: u8, byte: u8 },
    /// Receive a byte from the data port.
    Get,
}

/// What the caller has to do on the ports.
#[derive(Clone, Debug, PartialEq)]
pub enum PortAction {
    /// Read one byte from a port and hand it to [`RawPort::advance`].
    ReadPort(u8),
    /// Write one byte to a port and call [`RawPort::advance`].
    WritePort(u8, u8),
    /// Nothing more: the transfer is over and delivers the bytes received.
    Done(Vec<u8>),
    /// Nothing more: the transfer failed.
    Failed(DeviceFault),
}

/// What a [`PortAction`] holds.
pub enum PortActionView {
    ReadPort(u8),
    WritePort(u8, u8),
    Done(Seq<u8>),
    Failed(DeviceFault),
}

impl View for PortAction {
    type V = PortActionView;

    open spec fn view(&self) -> PortActionView {
        match *self {
            PortAction::ReadPort(port) => PortActionView::ReadPort(port),
            PortAction::WritePort(port, byte) => PortActionView::WritePort(port, byte),
            PortAction::Done(bytes) => PortActionView::Done(bytes@),
            PortAction::Failed(fault) => PortActionView::Failed(fault),
        }
    }
}

/// The steps that send a byte to a port: wait until the controller has
/// taken the last one, then send.
pub open spec fn query_script(port: u8, query: u8) -> Seq<PortStep> {
    seq![PortStep::Wait(BufferEmpty::InputBuffer), PortStep::Put { port, byte: query }]
}

/// The steps that read the register at `offset`: announce a read, name the
/// register, wait for the byte, wait for the controller, receive.
pub open spec fn read_byte_script(offset: u8) -> Seq<PortStep> {
    query_script(COMMAND_PORT, EC_COMMAND_READ) + query_script(DATA_PORT, offset) + seq![
        PortStep::Wait(BufferEmpty::OutputBuffer),
        PortStep::Wait(BufferEmpty::InputBuffer),
        PortStep::Get,
    ]
}

/// The steps that write `byte` to the register at `offset`: announce a
/// write, name the register, send the byte.
pub open spec fn write_byte_script(offset: u8, byte: u8) -> Seq<PortStep> {
    query_script(COMMAND_PORT, EC_COMMAND_WRITE) + query_script(DATA_PORT, offset) + query_script(
        DATA_PORT,
        byte,
    )
}

/// The steps that read `len` registers from `offset` on, one after the
/// other.
pub open spec fn read_script(offset: int, len: nat) -> Seq<PortStep>
    decreases len,
{
    if len == 0 {
        Seq::empty()
    } else {
        read_script(offset, (len - 1) as nat) + read_byte_script((offset + len - 1) as u8)
    }
}

/// The steps that write `bytes` to the registers from `offset` on, one
/// after the other.
pub open spec fn write_script(offset: int, bytes: Seq<u8>) -> Seq<PortStep>
    decreases bytes.len(),
{
    if bytes.len() == 0 {
        Seq::empty()
    } else {
        write_script(offset, bytes.drop_last()) + write_byte_script(
            (offset + bytes.len() - 1) as u8,
            bytes.last(),
        )
    }
}

/// Number of receive steps in a script.
pub open spec fn count_gets(steps: Seq<PortStep>) -> nat
    decreases steps.len(),
{
    if steps.len() == 0 {
        0
    } else {
        count_gets(steps.drop_last()) + if steps.last() == PortStep::Get {
            1nat
        } else {
            0nat
        }
    }
}

/// Wraps reads and writes through `/dev/port`: a transfer under way.
#[derive(Clone, Debug, PartialEq)]
pub struct RawPort {
    /// The script of the transfer.
    pub steps: Vec<PortStep>,
    /// Number of steps that are done.
    pub pos: usize,
    /// Number of polls that the wait under way may still make.
    pub retries: u16,
    /// The bytes received so far.
    pub data: Vec<u8>,
    /// Whether a wait has given up.
    pub failed: bool,
}

/// What a [`RawPort`] holds.
pub struct RawPortView {
    pub steps: Seq<PortStep>,
    pub pos: nat,
    pub retries: u16,
    pub data: Seq<u8>,
    pub failed: bool,
}

impl View for RawPort {
    type V = RawPortView;

    open spec fn view(&self) -> RawPortView {
        RawPortView {
            steps: self.steps@,
            pos: self.pos as nat,
            retries: self.retries,
            data: self.data@,
            failed: self.failed,
        }
    }
}

impl RawPortView {
    /// A transfer before its first step.
    pub open spec fn start(steps: Seq<PortStep>) -> RawPortView {
        RawPortView { steps, pos: 0, retries: RAW_PORT_TIMEOUT, data: Seq::empty(), failed: false }
    }

    /// Whether the state is one that a transfer can be in: a wait that has
    /// not given up has between one poll and all of them left, and one byte
    /// was received for each receive step that is done.
    pub open spec fn wf(self) -> bool {
        &&& self.pos <= self.steps.len()
        &&& self.failed ==> self.pos < self.steps.len()
        &&& !self.failed ==> 1 <= self.retries <= RAW_PORT_TIMEOUT
        &&& self.data.len() == count_gets(self.steps.subrange(0, self.pos as int))
    }

    /// Whether the transfer is over.
    pub open spec fn is_done(self) -> bool {
        self.failed || self.pos >= self.steps.len()
    }

    /// What the caller has to do next.
    pub open spec fn action(self) -> PortActionView {
        if self.failed {
            PortActionView::Failed(DeviceFault::Timeout)
        } else if self.pos >= self.steps.len() {
            PortActionView::Done(self.data)
        } else {
            match self.steps[self.pos as int] {
                PortStep::Wait(_) => PortActionView::ReadPort(COMMAND_PORT),
                PortStep::Put { port, byte } => PortActionView::WritePort(port, byte),
                PortStep::Get => PortActionView::ReadPort(DATA_PORT),
            }
        }
    }

    /// The state after a poll of the status. A wait that ends gives way to
    /// the next step. One that does not has a poll less left, and gives up
    /// when none is left.
    pub open spec fn after_poll(self, ready: bool) -> RawPortView {
        if ready {
            RawPortView { pos: self.pos + 1, retries: RAW_PORT_TIMEOUT, ..self }
        } else if self.retries <= 1 {
            RawPortView { retries: 0, failed: true, ..self }
        } else {
            RawPortView { retries: (self.retries - 1) as u16, ..self }
        }
    }

    /// The state after the caller did what [`Self::action`] asked for,
    /// where `input` is the byte that a read delivered. A transfer that is
    /// over stays as it is.
    pub open spec fn advance(self, input: u8) -> RawPortView {
        if self.is_done() {
            self
        } else {
            match self.steps[self.pos as int] {
                PortStep::Wait(buffer) => self.after_poll(buffer.ready_spec(input)),
                PortStep::Put { port, byte } => RawPortView { pos: self.pos + 1, ..self },
                PortStep::Get => RawPortView {
                    pos: self.pos + 1,
                    data: self.data.push(input),
                    ..self
                },
            }
        }
    }

    /// The state after the caller did, one after the other, what was asked
    /// for, where `inputs` are the bytes that went with each call of
    /// [`Self::advance`].
    pub open spec fn run(self, inputs: Seq<u8>) -> RawPortView
        decreases inputs.len(),
    {
        if inputs.len() == 0 {
            self
        } else {
            self.run(inputs.drop_last()).advance(inputs.last())
        }
    }

    /// An upper bound of the number of actions that the transfer still
    /// asks for: the polls left of the wait under way, all polls of each
    /// wait to come, and one for each other step.
    pub open spec fn budget(self) -> nat {
        if self.is_done() {
            0
        } else {
            (match self.steps[self.pos as int] {
                PortStep::Wait(_) => self.retries as nat,
                _ => 1nat,
            }) + cost(self.steps.subrange(self.pos as int + 1, self.steps.len() as int))
        }
    }
}

/// The largest number of actions that the steps of a script can ask for.
pub open spec fn cost(steps: Seq<PortStep>) -> nat
    decreases steps.len(),
{
    if steps.len() == 0 {
        0
    } else {
        (match steps[0] {
            PortStep::Wait(_) => RAW_PORT_TIMEOUT as nat,
            _ => 1nat,
        }) + cost(steps.subrange(1, steps.len() as int))
    }
}

impl RawPort {
    /// Whether the state is one that a transfer can be in.
    pub open spec fn wf(&self) -> bool {
        self@.wf()
    }

    /// Appends the steps that send a byte to a port.
    pub fn raw_port_query(script: &mut Vec<PortStep>, port: u8, query: u8)
        ensures
            final(script)@ == old(script)@ + query_script(port, query),
    {
        script.push(PortStep::Wait(BufferEmpty::InputBuffer));
        script.push(PortStep::Put { port, byte: query });
        proof {
            assert(script@ =~= old(script)@ + query_script(port, query));
        }
    }

    /// Appends the steps that read the register at `offset`.
    pub fn ec_read_byte(script: &mut Vec<PortStep>, offset: u8)
        ensures
            final(script)@ == old(script)@ + read_byte_script(offset),
    {
        Self::raw_port_query(script, COMMAND_PORT, EC_COMMAND_READ);
        Self::raw_port_query(script, DATA_PORT, offset);
        script.push(PortStep::Wait(BufferEmpty::OutputBuffer));
        script.push(PortStep::Wait(BufferEmpty::InputBuffer));
        script.push(PortStep::Get);
        proof {
            assert(script@ =~= old(script)@ + read_byte_script(offset));
        }
    }

    /// Appends the steps that write `byte` to the register at `offset`.
    pub fn ec_write_byte(script: &mut Vec<PortStep>, offset: u8, byte: u8)
        ensures
            final(script)@ == old(script)@ + write_byte_script(offset, byte),
    {
        Self::raw_port_query(script, COMMAND_PORT, EC_COMMAND_WRITE);
        Self::raw_port_query(script, DATA_PORT, offset);
        Self::raw_port_query(script, DATA_PORT, byte);
        proof {
            assert(script@ =~= old(script)@ + write_byte_script(offset, byte));
        }
    }

    /// Starts a transfer that walks through a script.
    pub fn from(steps: Vec<PortStep>) -> (port: RawPort)
        ensures
            port@ == RawPortView::start(steps@),
            port.wf(),
    {
        let port = RawPort {
            steps,
            pos: 0,
            retries: RAW_PORT_TIMEOUT,
            data: Vec::new(),
            failed: false,
        };
        proof {
            assert(port@.steps.subrange(0, 0) =~= Seq::empty());
        }
        port
    }

    /// Starts the transfer that reads `len` registers from `offset` on.
    pub fn read_bytes(offset: u8, len: usize) -> (port: RawPort)
        requires
            offset + len <= 256,
        ensures
            port@ == RawPortView::start(read_script(offset as int, len as nat)),
            port.wf(),
    {
        let mut script: Vec<PortStep> = Vec::new();
        let mut i: usize = 0;
        while i < len
            invariant
                i <= len,
                offset + len <= 256,
                script@ == read_script(offset as int, i as nat),
            decreases len - i,
        {
            let at: u8 = (offset as usize + i) as u8;
            Self::ec_read_byte(&mut script, at);
            i += 1;
        }
        Self::from(script)
    }

    /// Starts the transfer that writes `bytes` to the registers from
    /// `offset` on.
    pub fn write_bytes(offset: u8, bytes: &[u8]) -> (port: RawPort)
        requires
            offset + bytes@.len() <= 256,
        ensures
            port@ == RawPortView::start(write_script(offset as int, bytes@)),
            port.wf(),
    {
        let mut script: Vec<PortStep> = Vec::new();
        let mut i: usize = 0;
        while i < bytes.len()
            invariant
                i <= bytes@.len(),
                offset + bytes@.len() <= 256,
                script@ == write_script(offset as int, bytes@.subrange(0, i as int)),
            decreases bytes@.len() - i,
        {
            let at: u8 = (offset as usize + i) as u8;
            proof {
                let now = bytes@.subrange(0, i + 1);
                assert(now.drop_last() =~= bytes@.subrange(0, i as int));
                assert(now.last() == bytes@[i as int]);
            }
            Self::ec_write_byte(&mut script, at, bytes[i]);
            i += 1;
        }
        proof {
            assert(bytes@.subrange(0, bytes@.len() as int) =~= bytes@);
        }
        Self::from(script)
    }

    /// Tells whether the transfer is over.
    pub fn is_done(&self) -> (done: bool)
        ensures
            done == self@.is_done(),
    {
        self.failed || self.pos >= self.steps.len()
    }

    /// Says what the caller has to do next on the ports.
    pub fn action(&self) -> (action: PortAction)
        ensures
            action@ == self@.action(),
    {
        if self.failed {
            PortAction::Failed(DeviceFault::Timeout)
        } else if self.pos >= self.steps.len() {
            let mut bytes: Vec<u8> = Vec::new();
            let mut i: usize = 0;
            while i < self.data.len()
                invariant
                    i <= self.data@.len(),
                    bytes@ == self.data@.subrange(0, i as int),
                decreases self.data@.len() - i,
            {
                bytes.push(self.data[i]);
                proof {
                    assert(bytes@ =~= self.data@.subrange(0, i + 1));
                }
                i += 1;
            }
            proof {
                assert(self.data@.subrange(0, self.data@.len() as int) =~= self.data@);
            }
            PortAction::Done(bytes)
        } else {
            match self.steps[self.pos] {
                PortStep::Wait(_) => PortAction::ReadPort(COMMAND_PORT),
                PortStep::Put { port, byte } => PortAction::WritePort(port, byte),
                PortStep::Get => PortAction::ReadPort(DATA_PORT),
            }
        }
    }

    /// Takes note of one poll of the status during a wait.
    pub fn raw_port_wait(&mut self, buffer_type: BufferEmpty, status: u8)
        requires
            old(self).wf(),
            !old(self)@.is_done(),
            old(self).steps@[old(self).pos as int] == PortStep::Wait(buffer_type),
        ensures
            final(self)@ == old(self)@.after_poll(buffer_type.ready_spec(status)),
            final(self).wf(),
    {
        proof {
            lemma_count_gets_next(self.steps@, self.pos as int);
        }
        let len = self.steps.len();
        assert(self.pos < len);
        if buffer_type.ready(status) {
            self.pos = self.pos + 1;
            self.retries = RAW_PORT_TIMEOUT;
        } else if self.retries <= 1 {
            self.retries = 0;
            self.failed = true;
        } else {
            self.retries = self.retries - 1;
        }
    }

    /// Takes note that the caller did what [`Self::action`] asked for.
    /// `input` is the byte that a read delivered; after a write it is not
    /// looked at.
    pub fn advance(&mut self, input: u8)
        requires
            old(self).wf(),
        ensures
            final(self)@ == old(self)@.advance(input),
            final(self).wf(),
            !old(self)@.is_done() ==> final(self)@.budget() < old(self)@.budget(),
    {
        if self.failed || self.pos >= self.steps.len() {
            return ;
        }
        proof {
            lemma_count_gets_next(self.steps@, self.pos as int);
            lemma_advance_spends(self@, input);
        }
        match self.steps[self.pos] {
            PortStep::Wait(buffer) => {
                self.raw_port_wait(buffer, input);
            },
            PortStep::Put { port, byte } => {
                self.pos = self.pos + 1;
            },
            PortStep::Get => {
                self.pos = self.pos + 1;
                self.data.push(input);
            },
        }
    }
}

/// One more step done counts one more byte received exactly where the step
/// is a receive.
pub proof fn lemma_count_gets_next(steps: Seq<PortStep>, pos: int)
    requires
        0 <= pos < steps.len(),
    ensures
        count_gets(steps.subrange(0, pos + 1)) == count_gets(steps.subrange(0, pos)) + if steps[pos]
            == PortStep::Get {
            1nat
        } else {
            0nat
        },
{
    let now = steps.subrange(0, pos + 1);
    assert(now.drop_last() =~= steps.subrange(0, pos));
    assert(now.last() == steps[pos]);
}

/// Every action uses up some of the budget: a transfer ends after a number
/// of actions that its script bounds, whatever the ports deliver.
pub proof fn lemma_advance_spends(port: RawPortView, input: u8)
    requires
        port.wf(),
        !port.is_done(),
    ensures
        port.advance(input).budget() < port.budget(),
{
    let next = port.advance(input);
    let rest = port.steps.subrange(port.pos as int + 1, port.steps.len() as int);
    if !next.is_done() && next.pos == port.pos + 1 {
        assert(rest[0] == port.steps[port.pos as int + 1]);
        assert(rest.subrange(1, rest.len() as int) =~= port.steps.subrange(
            port.pos as int + 2,
            port.steps.len() as int,
        ));
    }
}


/// What a transfer can be in stays so after an action.
pub proof fn lemma_advance_keeps_wf(port: RawPortView, input: u8)
    requires
        port.wf(),
    ensures
        port.advance(input).wf(),
{
    if !port.is_done() {
        lemma_count_gets_next(port.steps, port.pos as int);
    }
}

/// What a transfer can be in stays so after any number of actions.
pub proof fn lemma_run_keeps_wf(port: RawPortView, inputs: Seq<u8>)
    requires
        port.wf(),
    ensures
        port.run(inputs).wf(),
    decreases inputs.len(),
{
    if inputs.len() > 0 {
        lemma_run_keeps_wf(port, inputs.drop_last());
        lemma_advance_keeps_wf(port.run(inputs.drop_last()), inputs.last());
    }
}

/// A wait gives up after as many polls as it had left, and not before:
/// while every status says that the wait is not over, each poll takes one
/// from the polls left, and the poll that takes the last one ends the
/// transfer with a timeout. A wait that starts afresh gives up at the
/// 2000th poll.
pub proof fn lemma_wait_gives_up(port: RawPortView, buffer: BufferEmpty, statuses: Seq<u8>)
    requires
        port.wf(),
        !port.is_done(),
        port.steps[port.pos as int] == PortStep::Wait(buffer),
        statuses.len() <= port.retries,
        forall|k: int| 0 <= k < statuses.len() ==> !buffer.ready_spec(#[trigger] statuses[k]),
    ensures
        statuses.len() < port.retries ==> port.run(statuses) == (RawPortView {
            retries: (port.retries - statuses.len()) as u16,
            ..port
        }) && port.run(statuses).action() == PortActionView::ReadPort(COMMAND_PORT),
        statuses.len() == port.retries ==> port.run(statuses) == (RawPortView {
            retries: 0,
            failed: true,
            ..port
        }) && port.run(statuses).action() == PortActionView::Failed(DeviceFault::Timeout),
    decreases statuses.len(),
{
    if statuses.len() > 0 {
        let shorter = statuses.drop_last();
        assert forall|k: int| 0 <= k < shorter.len() implies !buffer.ready_spec(
            #[trigger] shorter[k],
        ) by {
            assert(shorter[k] == statuses[k]);
        }
        lemma_wait_gives_up(port, buffer, shorter);
        assert(!buffer.ready_spec(statuses[statuses.len() - 1]));
    }
}

/// The number of receive steps of two scripts, one after the other, is the
/// sum of their numbers.
pub proof fn lemma_count_gets_concat(first: Seq<PortStep>, second: Seq<PortStep>)
    ensures
        count_gets(first + second) == count_gets(first) + count_gets(second),
    decreases second.len(),
{
    if second.len() == 0 {
        assert(first + second =~= first);
    } else {
        lemma_count_gets_concat(first, second.drop_last());
        assert((first + second).drop_last() =~= first + second.drop_last());
        assert((first + second).last() == second.last());
    }
}

/// The script that reads one register receives one byte.
pub proof fn lemma_read_byte_script_gets(offset: u8)
    ensures
        count_gets(read_byte_script(offset)) == 1,
{
    let script = read_byte_script(offset);
    assert(script.len() == 7);
    let s6 = script.drop_last();
    let s5 = s6.drop_last();
    let s4 = s5.drop_last();
    let s3 = s4.drop_last();
    let s2 = s3.drop_last();
    let s1 = s2.drop_last();
    let s0 = s1.drop_last();
    assert(s0.len() == 0);
    assert(count_gets(s0) == 0);
    assert(count_gets(s1) == 0);
    assert(count_gets(s2) == 0);
    assert(count_gets(s3) == 0);
    assert(count_gets(s4) == 0);
    assert(count_gets(s5) == 0);
    assert(count_gets(s6) == 0);
}

/// The script that writes one register receives no byte.
pub proof fn lemma_write_byte_script_gets(offset: u8, byte: u8)
    ensures
        count_gets(write_byte_script(offset, byte)) == 0,
{
    let script = write_byte_script(offset, byte);
    assert(script.len() == 6);
    let s5 = script.drop_last();
    let s4 = s5.drop_last();
    let s3 = s4.drop_last();
    let s2 = s3.drop_last();
    let s1 = s2.drop_last();
    let s0 = s1.drop_last();
    assert(s0.len() == 0);
    assert(count_gets(s0) == 0);
    assert(count_gets(s1) == 0);
    assert(count_gets(s2) == 0);
    assert(count_gets(s3) == 0);
    assert(count_gets(s4) == 0);
    assert(count_gets(s5) == 0);
}

/// The script that reads `len` registers receives `len` bytes: it is made
/// of `len` scripts that read one register each.
pub proof fn lemma_read_script_gets(offset: int, len: nat)
    ensures
        count_gets(read_script(offset, len)) == len,
    decreases len,
{
    if len > 0 {
        lemma_read_script_gets(offset, (len - 1) as nat);
        lemma_read_byte_script_gets((offset + len - 1) as u8);
        lemma_count_gets_concat(
            read_script(offset, (len - 1) as nat),
            read_byte_script((offset + len - 1) as u8),
        );
    }
}

/// The script that writes bytes receives none.
pub proof fn lemma_write_script_gets(offset: int, bytes: Seq<u8>)
    ensures
        count_gets(write_script(offset, bytes)) == 0,
    decreases bytes.len(),
{
    if bytes.len() > 0 {
        lemma_write_script_gets(offset, bytes.drop_last());
        lemma_write_byte_script_gets((offset + bytes.len() - 1) as u8, bytes.last());
        lemma_count_gets_concat(
            write_script(offset, bytes.drop_last()),
            write_byte_script((offset + bytes.len() - 1) as u8, bytes.last()),
        );
    }
}

/// A read of `len` registers that comes to its end delivers `len` bytes,
/// whatever the ports delivered on the way.
pub proof fn lemma_read_delivers_all(offset: int, len: nat, inputs: Seq<u8>)
    ensures
        ({
            let port = RawPortView::start(read_script(offset, len)).run(inputs);
            match port.action() {
                PortActionView::Done(bytes) => bytes.len() == len,
                _ => true,
            }
        }),
{
    let start = RawPortView::start(read_script(offset, len));
    assert(start.steps.subrange(0, 0) =~= Seq::empty());
    lemma_run_keeps_wf(start, inputs);
    let port = start.run(inputs);
    lemma_run_keeps_steps(start, inputs);
    if !port.failed && port.pos >= port.steps.len() {
        assert(port.steps.subrange(0, port.pos as int) =~= port.steps);
        lemma_read_script_gets(offset, len);
    }
}

/// A transfer never changes its script.
pub proof fn lemma_run_keeps_steps(port: RawPortView, inputs: Seq<u8>)
    ensures
        port.run(inputs).steps == port.steps,
    decreases inputs.len(),
{
    if inputs.len() > 0 {
        lemma_run_keeps_steps(port, inputs.drop_last());
    }
}


/// The cost of two scripts, one after the other, is the sum of their costs.
pub proof fn lemma_cost_concat(first: Seq<PortStep>, second: Seq<PortStep>)
    ensures
        cost(first + second) == cost(first) + cost(second),
    decreases first.len(),
{
    if first.len() == 0 {
        assert(first + second =~= second);
    } else {
        let rest = first.subrange(1, first.len() as int);
        lemma_cost_concat(rest, second);
        assert((first + second)[0] == first[0]);
        assert((first + second).subrange(1, (first + second).len() as int) =~= rest + second);
    }
}

/// The cost of a script of one step.
proof fn lemma_cost_single(step: PortStep)
    ensures
        cost(seq![step]) == match step {
            PortStep::Wait(_) => RAW_PORT_TIMEOUT as nat,
            _ => 1nat,
        },
{
    let script = seq![step];
    assert(script.subrange(1, 1) =~= Seq::empty());
    assert(cost(script.subrange(1, 1)) == 0);
}

/// Sending one byte takes at most 2000 polls and one write.
pub proof fn lemma_query_cost(port: u8, query: u8)
    ensures
        cost(query_script(port, query)) == RAW_PORT_TIMEOUT + 1,
{
    let wait = seq![PortStep::Wait(BufferEmpty::InputBuffer)];
    let put = seq![PortStep::Put { port, byte: query }];
    lemma_cost_single(PortStep::Wait(BufferEmpty::InputBuffer));
    lemma_cost_single(PortStep::Put { port, byte: query });
    lemma_cost_concat(wait, put);
    assert(query_script(port, query) =~= wait + put);
}

/// Reading one register takes at most four waits of 2000 polls each, two
/// writes and one read.
pub proof fn lemma_read_byte_cost(offset: u8)
    ensures
        cost(read_byte_script(offset)) == 4 * RAW_PORT_TIMEOUT + 3,
{
    let first = query_script(COMMAND_PORT, EC_COMMAND_READ);
    let second = query_script(DATA_PORT, offset);
    let a = seq![PortStep::Wait(BufferEmpty::OutputBuffer)];
    let b = seq![PortStep::Wait(BufferEmpty::InputBuffer)];
    let c = seq![PortStep::Get];
    lemma_query_cost(COMMAND_PORT, EC_COMMAND_READ);
    lemma_query_cost(DATA_PORT, offset);
    lemma_cost_single(PortStep::Wait(BufferEmpty::OutputBuffer));
    lemma_cost_single(PortStep::Wait(BufferEmpty::InputBuffer));
    lemma_cost_single(PortStep::Get);
    lemma_cost_concat(first, second);
    lemma_cost_concat(first + second, a);
    lemma_cost_concat(first + second + a, b);
    lemma_cost_concat(first + second + a + b, c);
    assert(read_byte_script(offset) =~= first + second + a + b + c);
}

/// Writing one register takes at most three waits of 2000 polls each and
/// three writes.
pub proof fn lemma_write_byte_cost(offset: u8, byte: u8)
    ensures
        cost(write_byte_script(offset, byte)) == 3 * RAW_PORT_TIMEOUT + 3,
{
    let first = query_script(COMMAND_PORT, EC_COMMAND_WRITE);
    let second = query_script(DATA_PORT, offset);
    let third = query_script(DATA_PORT, byte);
    lemma_query_cost(COMMAND_PORT, EC_COMMAND_WRITE);
    lemma_query_cost(DATA_PORT, offset);
    lemma_query_cost(DATA_PORT, byte);
    lemma_cost_concat(first, second);
    lemma_cost_concat(first + second, third);
}

/// Reading `len` registers takes at most `len` times what reading one
/// takes.
pub proof fn lemma_read_script_cost(offset: int, len: nat)
    ensures
        cost(read_script(offset, len)) == len * (4 * RAW_PORT_TIMEOUT + 3),
    decreases len,
{
    let each = (4 * RAW_PORT_TIMEOUT + 3) as int;
    if len > 0 {
        let before = (len - 1) as nat;
        lemma_read_script_cost(offset, before);
        lemma_read_byte_cost((offset + len - 1) as u8);
        lemma_cost_concat(read_script(offset, before), read_byte_script((offset + len - 1) as u8));
        assert(len * each == before * each + each) by (nonlinear_arith)
            requires
                before == len - 1,
        ;
    } else {
        assert(read_script(offset, len) =~= Seq::empty());
        assert(len * each == 0) by (nonlinear_arith)
            requires
                len == 0,
        ;
    }
}

/// Writing some bytes takes at most as many times what writing one takes.
pub proof fn lemma_write_script_cost(offset: int, bytes: Seq<u8>)
    ensures
        cost(write_script(offset, bytes)) == bytes.len() * (3 * RAW_PORT_TIMEOUT + 3),
    decreases bytes.len(),
{
    let each = (3 * RAW_PORT_TIMEOUT + 3) as int;
    let len = bytes.len();
    if len > 0 {
        let before = bytes.drop_last().len();
        lemma_write_script_cost(offset, bytes.drop_last());
        lemma_write_byte_cost((offset + len - 1) as u8, bytes.last());
        lemma_cost_concat(
            write_script(offset, bytes.drop_last()),
            write_byte_script((offset + len - 1) as u8, bytes.last()),
        );
        assert(len * each == before * each + each) by (nonlinear_arith)
            requires
                before == len - 1,
        ;
    } else {
        assert(len * each == 0) by (nonlinear_arith)
            requires
                len == 0,
        ;
    }
}

/// A transfer that has not begun has the cost of its script as its budget.
pub proof fn lemma_start_budget(steps: Seq<PortStep>)
    ensures
        RawPortView::start(steps).budget() == cost(steps),
        RawPortView::start(steps).wf(),
{
    let start = RawPortView::start(steps);
    assert(steps.subrange(0, 0) =~= Seq::empty());
    if steps.len() > 0 {
        assert(steps.subrange(1, steps.len() as int) == steps.subrange(
            start.pos as int + 1,
            steps.len() as int,
        ));
    }
}

/// A transfer that is over stays over.
pub proof fn lemma_done_stays(port: RawPortView, inputs: Seq<u8>)
    requires
        port.is_done(),
    ensures
        port.run(inputs) == port,
    decreases inputs.len(),
{
    if inputs.len() > 0 {
        lemma_done_stays(port, inputs.drop_last());
    }
}

/// A transfer ends within its budget: where it has asked for as many
/// actions as there are inputs, their number and the budget that is left
/// are within the budget that it had.
pub proof fn lemma_run_within_budget(port: RawPortView, inputs: Seq<u8>)
    requires
        port.wf(),
        inputs.len() > 0 ==> !port.run(inputs.drop_last()).is_done(),
    ensures
        inputs.len() + port.run(inputs).budget() <= port.budget(),
    decreases inputs.len(),
{
    if inputs.len() > 0 {
        let shorter = inputs.drop_last();
        if shorter.len() > 0 {
            if port.run(shorter.drop_last()).is_done() {
                let done = port.run(shorter.drop_last());
                assert(done.advance(shorter.last()) == done);
            }
        }
        lemma_run_within_budget(port, shorter);
        lemma_run_keeps_wf(port, shorter);
        lemma_advance_spends(port.run(shorter), inputs.last());
    }
}

} // verus!
