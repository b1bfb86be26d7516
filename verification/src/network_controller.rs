use vstd::prelude::*;

verus! {

/// The sending end of a crossbeam channel; the library only carries it.
#[verifier::external_type_specification]
#[verifier::external_body]
#[verifier::reject_recursive_types(T)]
pub struct ExSender<T>(crossbeam_channel::Sender<T>);

/// The receiving end of a crossbeam channel; the library only carries it.
#[verifier::external_type_specification]
#[verifier::external_body]
#[verifier::reject_recursive_types(T)]
pub struct ExReceiver<T>(crossbeam_channel::Receiver<T>);

/// Whether `sender` and `receiver` are the two ends of one channel: what is
/// sent on `sender` is received on `receiver`.
pub uninterp spec fn same_channel(
    sender: crossbeam_channel::Sender<Message>,
    receiver: crossbeam_channel::Receiver<Message>,
) -> bool;

/// Calls `crossbeam_channel::unbounded`, which builds one channel of
/// unbounded capacity and hands out its sending and its receiving end, both
/// over that one channel: the contract says the two ends belong together.
/// It says nothing of the channel's capacity, of its starting empty, or of
/// its being distinct from every other channel.
#[verifier::external_body]
fn unbounded_channel() -> (ends: (crossbeam_channel::Sender<Message>, crossbeam_channel::Receiver<Message>))
    ensures
        same_channel(ends.0, ends.1),
{
    crossbeam_channel::unbounded()
}

/// The address of a peer on the network: an IPv4 or IPv6 address and a port.
#[derive(Clone, Copy, Debug, PartialEq, Eq, Hash)]
pub enum PeerAddress {
    V4 { ip: [u8; 4], port: u16 },
    V6 { ip: [u16; 8], port: u16, flowinfo: u32, scope_id: u32 },
}

/// The kind of a message, by which the network routes it to a channel.
#[derive(Clone, Debug, PartialEq, Eq, Hash)]
pub struct MessageType {
    message_type: String,
}

impl View for MessageType {
    type V = Seq<char>;

    closed spec fn view(&self) -> Seq<char> {
        self.message_type@
    }
}

impl MessageType {
    /// The message type of the given name.
    pub fn new(message_type: String) -> (res: Self)
        ensures
            res@ == message_type@,
    {
        Self { message_type }
    }

    /// The name of this message type.
    pub fn get_type(&self) -> (res: String)
        ensures
            res@ == self@,
    {
        self.message_type.clone()
    }
}

/// The payload of a network message.
#[derive(Clone, Debug)]
pub struct Message {
    pub data: Vec<u8>,
}

impl Message {
    /// The message that carries `data`.
    pub fn new(data: Vec<u8>) -> (res: Self)
        ensures
            res.data@ == data@,
    {
        Self { data }
    }

    /// The bytes this message carries.
    pub fn to_bytes(self) -> (res: Vec<u8>)
        ensures
            res@ == self.data@,
    {
        self.data
    }
}

/// A message as it travels between peers: its sender, payload and type.
#[derive(Clone, Debug)]
pub struct NetworkMessage {
    pub sender: PeerAddress,
    pub message: Message,
    pub message_type: MessageType,
}

impl NetworkMessage {
    /// The network message of the given sender, payload and type.
    pub fn new(sender: PeerAddress, message: Message, message_type: MessageType) -> (res: Self)
        ensures
            res.sender == sender,
            res.message.data@ == message.data@,
            res.message_type@ == message_type@,
    {
        Self { sender, message, message_type }
    }
}

/// The routes of incoming messages: each registered message type and the
/// channel end that its messages are handed to.
struct InboundHandler {
    service: String,
    listen_addr: PeerAddress,
    timeout_ms: u64,
    handlers: Vec<(MessageType, crossbeam_channel::Sender<Message>)>,
    started: bool,
}

impl InboundHandler {
    closed spec fn message_types(&self) -> Seq<Seq<char>> {
        self.handlers@.map_values(|h: (MessageType, crossbeam_channel::Sender<Message>)| h.0@)
    }

    closed spec fn senders(&self) -> Seq<crossbeam_channel::Sender<Message>> {
        self.handlers@.map_values(|h: (MessageType, crossbeam_channel::Sender<Message>)| h.1)
    }

    fn new(service: String, listen_addr: PeerAddress, timeout_ms: u64) -> (res: Self)
        ensures
            res.service@ == service@,
            res.listen_addr == listen_addr,
            res.timeout_ms == timeout_ms,
            res.message_types() == Seq::<Seq<char>>::empty(),
            res.senders() == Seq::<crossbeam_channel::Sender<Message>>::empty(),
            !res.started,
    {
        InboundHandler { service, listen_addr, timeout_ms, handlers: Vec::new(), started: false }
    }

    fn register_handler(&mut self, message_type: String, sender: crossbeam_channel::Sender<Message>)
        ensures
            final(self).service == old(self).service,
            final(self).listen_addr == old(self).listen_addr,
            final(self).timeout_ms == old(self).timeout_ms,
            final(self).started == old(self).started,
            final(self).message_types() == old(self).message_types().push(message_type@),
            final(self).senders() == old(self).senders().push(sender),
    {
        let ghost before = self.handlers@;
        self.handlers.push((MessageType::new(message_type), sender));
        assert(self.handlers@.map_values(|h: (MessageType, crossbeam_channel::Sender<Message>)| h.0@)
            =~= before.map_values(|h: (MessageType, crossbeam_channel::Sender<Message>)| h.0@).push(message_type@));
        assert(self.handlers@.map_values(|h: (MessageType, crossbeam_channel::Sender<Message>)| h.1)
            =~= before.map_values(|h: (MessageType, crossbeam_channel::Sender<Message>)| h.1).push(sender));
    }

    fn start(&mut self)
        ensures
            final(self).service == old(self).service,
            final(self).listen_addr == old(self).listen_addr,
            final(self).timeout_ms == old(self).timeout_ms,
            final(self).message_types() == old(self).message_types(),
            final(self).senders() == old(self).senders(),
            final(self).started,
    {
        self.started = true;
    }
}

/// The routes of outgoing messages: each registered message type, the peer
/// its messages go to, and the channel end they are taken from.
struct OutboundHandler {
    address: PeerAddress,
    handlers: Vec<(MessageType, PeerAddress, crossbeam_channel::Receiver<Message>)>,
    started: bool,
}

impl OutboundHandler {
    closed spec fn routes(&self) -> Seq<(Seq<char>, PeerAddress)> {
        self.handlers@.map_values(
            |h: (MessageType, PeerAddress, crossbeam_channel::Receiver<Message>)| (h.0@, h.1),
        )
    }

    closed spec fn receivers(&self) -> Seq<crossbeam_channel::Receiver<Message>> {
        self.handlers@.map_values(
            |h: (MessageType, PeerAddress, crossbeam_channel::Receiver<Message>)| h.2,
        )
    }

    fn new(address: PeerAddress) -> (res: Self)
        ensures
            res.address == address,
            res.routes() == Seq::<(Seq<char>, PeerAddress)>::empty(),
            res.receivers() == Seq::<crossbeam_channel::Receiver<Message>>::empty(),
            !res.started,
    {
        OutboundHandler { address, handlers: Vec::new(), started: false }
    }

    fn register_handler(
        &mut self,
        message_type: String,
        remote_addr: PeerAddress,
        receiver: crossbeam_channel::Receiver<Message>,
    )
        ensures
            final(self).address == old(self).address,
            final(self).started == old(self).started,
            final(self).routes() == old(self).routes().push((message_type@, remote_addr)),
            final(self).receivers() == old(self).receivers().push(receiver),
    {
        let ghost before = self.handlers@;
        self.handlers.push((MessageType::new(message_type), remote_addr, receiver));
        assert(self.handlers@.map_values(
            |h: (MessageType, PeerAddress, crossbeam_channel::Receiver<Message>)| (h.0@, h.1),
        ) =~= before.map_values(
            |h: (MessageType, PeerAddress, crossbeam_channel::Receiver<Message>)| (h.0@, h.1),
        ).push((message_type@, remote_addr)));
        assert(self.handlers@.map_values(
            |h: (MessageType, PeerAddress, crossbeam_channel::Receiver<Message>)| h.2,
        ) =~= before.map_values(
            |h: (MessageType, PeerAddress, crossbeam_channel::Receiver<Message>)| h.2,
        ).push(receiver));
    }

    fn start(&mut self)
        ensures
            final(self).address == old(self).address,
            final(self).routes() == old(self).routes(),
            final(self).receivers() == old(self).receivers(),
            final(self).started,
    {
        self.started = true;
    }
}

/// What a [`NetworkController`] has been set up with: the service it runs,
/// the address it listens on, its timeout, the address its outbound side
/// sends as, the message types it receives,
/// the (message type, peer) pairs it sends, and whether each of its two
/// handlers has been started.
pub struct NetworkControllerView {
    pub service: Seq<char>,
    pub listen_addr: PeerAddress,
    pub timeout_ms: u64,
    pub outbound_addr: PeerAddress,
    pub inbound: Seq<Seq<char>>,
    pub outbound: Seq<(Seq<char>, PeerAddress)>,
    pub inbound_started: bool,
    pub outbound_started: bool,
}

/// Keeps the registry of channel ends of a node's network service: each
/// channel that it hands out has its other end registered with the inbound
/// or the outbound handler, under its message type (and, outbound, its peer).
pub struct NetworkController {
    inbound_handler: InboundHandler,
    outbound_handler: OutboundHandler,
}

impl View for NetworkController {
    type V = NetworkControllerView;

    closed spec fn view(&self) -> NetworkControllerView {
        NetworkControllerView {
            service: self.inbound_handler.service@,
            listen_addr: self.inbound_handler.listen_addr,
            timeout_ms: self.inbound_handler.timeout_ms,
            outbound_addr: self.outbound_handler.address,
            inbound: self.inbound_handler.message_types(),
            outbound: self.outbound_handler.routes(),
            inbound_started: self.inbound_handler.started,
            outbound_started: self.outbound_handler.started,
        }
    }
}

impl NetworkController {
    /// The sending ends that the inbound handler holds, one for each
    /// registered inbound message type, in the order of `self@.inbound`.
    pub closed spec fn inbound_senders(&self) -> Seq<crossbeam_channel::Sender<Message>> {
        self.inbound_handler.senders()
    }

    /// The receiving ends that the outbound handler holds, one for each
    /// registered outbound route, in the order of `self@.outbound`.
    pub closed spec fn outbound_receivers(&self) -> Seq<crossbeam_channel::Receiver<Message>> {
        self.outbound_handler.receivers()
    }

    /// A controller for `service` on `listen_addr`, whose outbound side sends
    /// as `listen_addr`, with no channel registered and nothing started.
    pub fn new(service: &str, listen_addr: PeerAddress, timeout_ms: u64) -> (res: Self)
        ensures
            res@.service == service@,
            res@.listen_addr == listen_addr,
            res@.timeout_ms == timeout_ms,
            res@.outbound_addr == listen_addr,
            res@.inbound == Seq::<Seq<char>>::empty(),
            res@.outbound == Seq::<(Seq<char>, PeerAddress)>::empty(),
            !res@.inbound_started,
            !res@.outbound_started,
            res.inbound_senders() == Seq::<crossbeam_channel::Sender<Message>>::empty(),
            res.outbound_receivers() == Seq::<crossbeam_channel::Receiver<Message>>::empty(),
    {
        Self {
            inbound_handler: InboundHandler::new(service.to_owned(), listen_addr, timeout_ms),
            outbound_handler: OutboundHandler::new(listen_addr),
        }
    }

    /// Creates a channel for messages of `message_type` to the peer at
    /// `remote_peer_addr`: its receiving end is registered with the outbound
    /// handler, its sending end is returned. Nothing else changes.
    pub fn create_outbound_channel(
        &mut self,
        remote_peer_addr: PeerAddress,
        message_type: &str,
    ) -> (outbound_sender: crossbeam_channel::Sender<Message>)
        ensures
            final(self)@ == (NetworkControllerView {
                outbound: old(self)@.outbound.push((message_type@, remote_peer_addr)),
                ..old(self)@
            }),
            final(self).outbound_receivers().len() == old(self).outbound_receivers().len() + 1,
            final(self).outbound_receivers().len() == final(self)@.outbound.len(),
            final(self).outbound_receivers().drop_last() == old(self).outbound_receivers(),
            same_channel(outbound_sender, final(self).outbound_receivers().last()),
            final(self).inbound_senders() == old(self).inbound_senders(),
    {
        let (outbound_sender, outbound_receiver) = unbounded_channel();
        self.outbound_handler.register_handler(message_type.to_owned(), remote_peer_addr, outbound_receiver);
        outbound_sender
    }

    /// Creates a channel for incoming messages of `message_type`: its
    /// sending end is registered with the inbound handler, its receiving end
    /// is returned. Nothing else changes.
    pub fn create_inbound_channel(&mut self, message_type: &str) -> (inbound_receiver: crossbeam_channel::Receiver<Message>)
        ensures
            final(self)@ == (NetworkControllerView {
                inbound: old(self)@.inbound.push(message_type@),
                ..old(self)@
            }),
            final(self).inbound_senders().len() == old(self).inbound_senders().len() + 1,
            final(self).inbound_senders().len() == final(self)@.inbound.len(),
            final(self).inbound_senders().drop_last() == old(self).inbound_senders(),
            same_channel(final(self).inbound_senders().last(), inbound_receiver),
            final(self).outbound_receivers() == old(self).outbound_receivers(),
    {
        let (inbound_sender, inbound_receiver) = unbounded_channel();
        self.inbound_handler.register_handler(message_type.to_owned(), inbound_sender);
        inbound_receiver
    }

    /// Marks both handlers as started; the registered channels stay as they
    /// are. No network work is done here.
    pub fn start(&mut self)
        ensures
            final(self)@ == (NetworkControllerView {
                inbound_started: true,
                outbound_started: true,
                ..old(self)@
            }),
            final(self).inbound_senders() == old(self).inbound_senders(),
            final(self).outbound_receivers() == old(self).outbound_receivers(),
    {
        self.inbound_handler.start();
        self.outbound_handler.start();
    }
}

} // verus!
