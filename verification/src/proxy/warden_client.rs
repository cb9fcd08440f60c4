//! Headless Warden client for AzerothCore's fixed WotLK Windows module.
//! Unknown modules and checks fail closed.
use vstd::prelude::*;
use crate::bytes::{copy_range, extend_bytes, push_u16, push_u32, read_u16_at, read_u32_at, u16_at, u16_bytes, u32_at, u32_bytes};
use crate::crypto::{md5_digest, md5_of, sha1_digest, sha1_of};
use crate::proxy::rc4::{Rc4, Rc4State, rc4_apply, rc4_init};
use crate::proxy::warden::{SESSION_KEY_LEN, keys, warden_input_key, warden_output_key};

verus! {

/// Identifier (and MD5) of the supported Warden module.
pub open spec fn module_id() -> Seq<u8> {
    seq![0x79u8, 0xC0, 0x76, 0x8D, 0x65, 0x79, 0x77, 0xD6, 0x97, 0xE1, 0x0B, 0xAD, 0x95, 0x6C, 0xCE, 0xD1]
}

/// Seed of the supported module's hash request.
pub open spec fn module_seed() -> Seq<u8> {
    seq![0x4Du8, 0x80, 0x8D, 0x2C, 0x77, 0xD9, 0x05, 0xC4, 0x1A, 0x63, 0x80, 0xEC, 0x08, 0x58, 0x6A, 0xFE]
}

/// Hash answer of a clean client for the supported module.
pub open spec fn client_hash() -> Seq<u8> {
    seq![
        0x56u8, 0x8C, 0x05, 0x4C, 0x78, 0x1A, 0x97, 0x2A, 0x60, 0x37, 0xA2, 0x29, 0x0C, 0x22, 0xB5, 0x25,
        0x71, 0xA0, 0x6F, 0x4E,
    ]
}

/// Module key for client-to-server packets after the hash exchange.
pub open spec fn client_key() -> Seq<u8> {
    seq![0x7Fu8, 0x96, 0xEE, 0xFD, 0xA5, 0xB6, 0x3D, 0x20, 0xA4, 0xDF, 0x8E, 0x00, 0xCB, 0xF4, 0x83, 0x04]
}

/// Module key for server-to-client packets after the hash exchange.
pub open spec fn server_key() -> Seq<u8> {
    seq![0xC2u8, 0xB7, 0xAD, 0xED, 0xFC, 0xCC, 0xA9, 0xC2, 0xBF, 0xB3, 0xF8, 0x56, 0x02, 0xBA, 0x80, 0x9B]
}

/// Largest module the client accepts.
pub const MAX_MODULE_SIZE: usize = 1048576;

fn module_id_bytes() -> (r: Vec<u8>)
    ensures
        r@ == module_id(),
{
    let v = vec![0x79u8, 0xC0, 0x76, 0x8D, 0x65, 0x79, 0x77, 0xD6, 0x97, 0xE1, 0x0B, 0xAD, 0x95, 0x6C, 0xCE, 0xD1];
    assert(v@ =~= module_id());
    v
}

fn module_seed_bytes() -> (r: Vec<u8>)
    ensures
        r@ == module_seed(),
{
    let v = vec![0x4Du8, 0x80, 0x8D, 0x2C, 0x77, 0xD9, 0x05, 0xC4, 0x1A, 0x63, 0x80, 0xEC, 0x08, 0x58, 0x6A, 0xFE];
    assert(v@ =~= module_seed());
    v
}

fn client_hash_bytes() -> (r: Vec<u8>)
    ensures
        r@ == client_hash(),
{
    let v = vec![
        0x56u8, 0x8C, 0x05, 0x4C, 0x78, 0x1A, 0x97, 0x2A, 0x60, 0x37, 0xA2, 0x29, 0x0C, 0x22, 0xB5, 0x25,
        0x71, 0xA0, 0x6F, 0x4E,
    ];
    assert(v@ =~= client_hash());
    v
}

fn client_key_bytes() -> (r: Vec<u8>)
    ensures
        r@ == client_key(),
{
    let v = vec![0x7Fu8, 0x96, 0xEE, 0xFD, 0xA5, 0xB6, 0x3D, 0x20, 0xA4, 0xDF, 0x8E, 0x00, 0xCB, 0xF4, 0x83, 0x04];
    assert(v@ =~= client_key());
    v
}

fn server_key_bytes() -> (r: Vec<u8>)
    ensures
        r@ == server_key(),
{
    let v = vec![0xC2u8, 0xB7, 0xAD, 0xED, 0xFC, 0xCC, 0xA9, 0xC2, 0xBF, 0xB3, 0xF8, 0x56, 0x02, 0xBA, 0x80, 0x9B];
    assert(v@ =~= server_key());
    v
}

/// Why a Warden packet could not be handled.
#[derive(Debug, Clone, Copy, PartialEq, Eq, Structural)]
pub enum WardenError {
    EmptyPacket,
    UnexpectedModuleRequest,
    InvalidModuleRequestLength,
    UnsupportedModuleId,
    InvalidModuleSize,
    UnexpectedModuleData,
    ShortModuleData,
    InvalidModuleChunkLength,
    ModuleExceedsAdvertisedSize,
    ModuleChecksumMismatch,
    UnexpectedHashRequest,
    UnsupportedHashSeed,
    ModuleInitializedBeforeHash,
    ChecksBeforeHash,
    MissingClientImage,
    UnsupportedCommand(u8),
    ShortChecksRequest,
    TruncatedStringTable,
    TruncatedString,
    ShortMemoryCheck,
    ExternalModuleMemoryCheck,
    MemoryUnavailable,
    ShortPageCheck,
    ShortDriverCheck,
    InvalidDriverStringIndex,
    ShortModuleCheck,
    ShortLuaCheck,
    InvalidLuaStringIndex,
    UnsupportedCheckType(u8),
    TrailingBytes,
    ResponseTooLarge,
}

/// A loaded client executable image: the bytes mapped at `base`.
pub struct PeImage {
    pub base: u32,
    pub bytes: Vec<u8>,
}

/// The `length` bytes of the image at virtual `address`, if mapped.
pub open spec fn image_read(base: u32, bytes: Seq<u8>, address: u32, length: nat) -> Option<Seq<u8>> {
    if address < base {
        None
    } else {
        let offset = address - base;
        if offset + length <= bytes.len() {
            Some(bytes.subrange(offset, offset + length))
        } else {
            None
        }
    }
}

impl PeImage {
    /// Reads `length` bytes at virtual `address`.
    pub fn read(&self, address: u32, length: usize) -> (r: Option<Vec<u8>>)
        ensures
            match r {
                Some(v) => image_read(self.base, self.bytes@, address, length as nat) == Some(v@),
                None => image_read(self.base, self.bytes@, address, length as nat) is None,
            },
    {
        if address < self.base {
            return None;
        }
        let offset = (address - self.base) as usize;
        if offset > self.bytes.len() || self.bytes.len() - offset < length {
            return None;
        }
        Some(copy_range(self.bytes.as_slice(), offset, offset + length))
    }
}

/// Reads the string table of a checks request starting at `cursor`, having read `count`
/// strings: the number of strings and the position after the terminating zero.
pub open spec fn string_table(req: Seq<u8>, cursor: int, count: nat) -> Result<(nat, int), WardenError>
    decreases req.len() - cursor,
{
    if cursor < 0 || cursor >= req.len() {
        Err(WardenError::TruncatedStringTable)
    } else {
        let len = req[cursor] as int;
        if len == 0 {
            Ok((count, cursor + 1))
        } else if cursor + 1 + len > req.len() {
            Err(WardenError::TruncatedString)
        } else {
            string_table(req, cursor + 1 + len, count + 1)
        }
    }
}

/// One check of a checks request at `cursor`: the result bytes it contributes and the
/// position after it.
pub open spec fn check_step(
    req: Seq<u8>,
    cursor: int,
    xor: u8,
    strings: nat,
    base: u32,
    image: Seq<u8>,
    tick: u32,
) -> Result<(Seq<u8>, int), WardenError> {
    let kind = req[cursor] ^ xor;
    let c = cursor + 1;
    if kind == 0x57 {
        Ok((seq![1u8] + u32_bytes(tick), c))
    } else if kind == 0xF3 {
        if c + 6 > req.len() {
            Err(WardenError::ShortMemoryCheck)
        } else if req[c] != 0 {
            Err(WardenError::ExternalModuleMemoryCheck)
        } else {
            match image_read(base, image, u32_at(req, c + 1), req[c + 5] as nat) {
                Some(bytes) => Ok((seq![0u8] + bytes, c + 6)),
                None => Err(WardenError::MemoryUnavailable),
            }
        }
    } else if kind == 0xB2 || kind == 0xBF {
        if c + 29 > req.len() {
            Err(WardenError::ShortPageCheck)
        } else {
            Ok((seq![0xE9u8], c + 29))
        }
    } else if kind == 0x71 {
        if c + 25 > req.len() {
            Err(WardenError::ShortDriverCheck)
        } else if !(req[c + 24] > 0 && req[c + 24] as nat <= strings) {
            Err(WardenError::InvalidDriverStringIndex)
        } else {
            Ok((seq![0xE9u8], c + 25))
        }
    } else if kind == 0xD9 {
        if c + 24 > req.len() {
            Err(WardenError::ShortModuleCheck)
        } else {
            Ok((seq![0xE9u8], c + 24))
        }
    } else if kind == 139 {
        if c >= req.len() {
            Err(WardenError::ShortLuaCheck)
        } else if !(req[c] > 0 && req[c] as nat <= strings) {
            Err(WardenError::InvalidLuaStringIndex)
        } else {
            Ok((seq![1u8], c + 1))
        }
    } else {
        Err(WardenError::UnsupportedCheckType(kind))
    }
}

/// Runs checks from `cursor` while `cursor < end`, appending their results to `acc`.
pub open spec fn check_results(
    req: Seq<u8>,
    cursor: int,
    end: int,
    xor: u8,
    strings: nat,
    base: u32,
    image: Seq<u8>,
    tick: u32,
    acc: Seq<u8>,
) -> Result<(Seq<u8>, int), WardenError>
    decreases req.len() - cursor,
{
    if cursor < 0 || cursor >= end || end > req.len() {
        Ok((acc, cursor))
    } else {
        match check_step(req, cursor, xor, strings, base, image, tick) {
            Err(e) => Err(e),
            Ok((bytes, next)) => if next <= cursor {
                Ok((acc, cursor))
            } else {
                check_results(req, next, end, xor, strings, base, image, tick, acc + bytes)
            },
        }
    }
}

/// The xor of the five little-endian words of a 20-byte digest.
pub open spec fn digest_checksum(d: Seq<u8>) -> u32 {
    u32_at(d, 0) ^ u32_at(d, 4) ^ u32_at(d, 8) ^ u32_at(d, 12) ^ u32_at(d, 16)
}

/// The answer to a checks request: command 2, the result length, the checksum of the
/// results and the results; the tick check reports `tick`.
pub open spec fn checks_answer(req: Seq<u8>, base: u32, image: Seq<u8>, tick: u32) -> Result<Seq<u8>, WardenError> {
    if req.len() < 3 {
        Err(WardenError::ShortChecksRequest)
    } else {
        match string_table(req, 0, 0) {
            Err(e) => Err(e),
            Ok((strings, start)) => {
                let end = req.len() - 1;
                match check_results(req, start, end, req[end], strings, base, image, tick, Seq::empty()) {
                    Err(e) => Err(e),
                    Ok((results, cursor)) => if cursor != end {
                        Err(WardenError::TrailingBytes)
                    } else if results.len() > 0xFFFF {
                        Err(WardenError::ResponseTooLarge)
                    } else {
                        Ok(seq![2u8] + u16_bytes(results.len() as u16) + u32_bytes(
                            digest_checksum(sha1_of(results)),
                        ) + results)
                    },
                }
            },
        }
    }
}

proof fn lemma_string_table_bounds(req: Seq<u8>, cursor: int, count: nat)
    ensures
        string_table(req, cursor, count) matches Ok((n, end)) ==> 0 <= cursor < end <= req.len(),
    decreases req.len() - cursor,
{
    if 0 <= cursor < req.len() && req[cursor] != 0 && cursor + 1 + req[cursor] as int <= req.len() {
        lemma_string_table_bounds(req, cursor + 1 + req[cursor] as int, count + 1);
    }
}

/// Answers a Warden checks request against the client image; `tick` is the client's
/// millisecond clock reported to timing checks.
pub fn checks_response(request: &[u8], image: &PeImage, tick: u32) -> (r: Result<Vec<u8>, WardenError>)
    ensures
        match r {
            Ok(v) => checks_answer(request@, image.base, image.bytes@, tick) == Ok::<Seq<u8>, WardenError>(v@),
            Err(e) => checks_answer(request@, image.base, image.bytes@, tick) == Err::<Seq<u8>, WardenError>(e),
        },
{
    let ghost req = request@;
    if request.len() < 3 {
        return Err(WardenError::ShortChecksRequest);
    }
    let mut cursor: usize = 0;
    let mut strings: usize = 0;
    loop
        invariant_except_break
            string_table(req, 0, 0) == string_table(req, cursor as int, strings as nat),
        invariant
            request@ == req,
            req.len() >= 3,
            cursor <= req.len(),
            strings <= cursor,
        ensures
            string_table(req, 0, 0) == Ok::<(nat, int), WardenError>((strings as nat, cursor as int)),
        decreases req.len() - cursor,
    {
        if cursor >= request.len() {
            return Err(WardenError::TruncatedStringTable);
        }
        let len = request[cursor] as usize;
        if len == 0 {
            cursor = cursor + 1;
            break;
        }
        if request.len() - (cursor + 1) < len {
            return Err(WardenError::TruncatedString);
        }
        cursor = cursor + 1 + len;
        strings = strings + 1;
    }
    proof {
        lemma_string_table_bounds(req, 0, 0);
    }
    assert(string_table(req, 0, 0) == Ok::<(nat, int), WardenError>((strings as nat, cursor as int)));
    let end = request.len() - 1;
    let xor = request[end];
    let ghost start = cursor as int;
    let ghost target = check_results(req, start, end as int, xor, strings as nat, image.base, image.bytes@, tick, Seq::empty());
    let mut results: Vec<u8> = Vec::new();
    assert(results@ =~= Seq::<u8>::empty());
    while cursor < end
        invariant
            request@ == req,
            req.len() >= 3,
            end == req.len() - 1,
            xor == req[end as int],
            cursor <= req.len(),
            check_results(req, cursor as int, end as int, xor, strings as nat, image.base, image.bytes@, tick, results@)
                == target,
            string_table(req, 0, 0) == Ok::<(nat, int), WardenError>((strings as nat, start)),
            target == check_results(req, start, end as int, xor, strings as nat, image.base, image.bytes@, tick, Seq::empty()),
        decreases req.len() - cursor,
    {
        let ghost before = results@;
        let kind = request[cursor] ^ xor;
        let c = cursor + 1;
        if kind == 0x57 {
            results.push(1u8);
            push_u32(&mut results, tick);
            assert(results@ =~= before + (seq![1u8] + u32_bytes(tick)));
            cursor = c;
        } else if kind == 0xF3 {
            if request.len() - c < 6 {
                return Err(WardenError::ShortMemoryCheck);
            }
            if request[c] != 0 {
                return Err(WardenError::ExternalModuleMemoryCheck);
            }
            let address = match read_u32_at(request, c + 1) {
                Some(a) => a,
                None => return Err(WardenError::ShortMemoryCheck),
            };
            let len = request[c + 5] as usize;
            let bytes = match image.read(address, len) {
                Some(b) => b,
                None => return Err(WardenError::MemoryUnavailable),
            };
            results.push(0u8);
            extend_bytes(&mut results, bytes.as_slice());
            assert(results@ =~= before + (seq![0u8] + bytes@));
            cursor = c + 6;
        } else if kind == 0xB2 || kind == 0xBF {
            if request.len() - c < 29 {
                return Err(WardenError::ShortPageCheck);
            }
            results.push(0xE9u8);
            assert(results@ =~= before + seq![0xE9u8]);
            cursor = c + 29;
        } else if kind == 0x71 {
            if request.len() - c < 25 {
                return Err(WardenError::ShortDriverCheck);
            }
            let index = request[c + 24] as usize;
            if !(index > 0 && index <= strings) {
                return Err(WardenError::InvalidDriverStringIndex);
            }
            results.push(0xE9u8);
            assert(results@ =~= before + seq![0xE9u8]);
            cursor = c + 25;
        } else if kind == 0xD9 {
            if request.len() - c < 24 {
                return Err(WardenError::ShortModuleCheck);
            }
            results.push(0xE9u8);
            assert(results@ =~= before + seq![0xE9u8]);
            cursor = c + 24;
        } else if kind == 139 {
            if c >= request.len() {
                return Err(WardenError::ShortLuaCheck);
            }
            let index = request[c] as usize;
            if !(index > 0 && index <= strings) {
                return Err(WardenError::InvalidLuaStringIndex);
            }
            results.push(1u8);
            assert(results@ =~= before + seq![1u8]);
            cursor = c + 1;
        } else {
            return Err(WardenError::UnsupportedCheckType(kind));
        }
    }
    if cursor != end {
        return Err(WardenError::TrailingBytes);
    }
    if results.len() > 0xFFFF {
        return Err(WardenError::ResponseTooLarge);
    }
    let digest = sha1_digest(results.as_slice());
    let w0 = read_u32_at(&digest, 0).unwrap();
    let w1 = read_u32_at(&digest, 4).unwrap();
    let w2 = read_u32_at(&digest, 8).unwrap();
    let w3 = read_u32_at(&digest, 12).unwrap();
    let w4 = read_u32_at(&digest, 16).unwrap();
    let checksum = w0 ^ w1 ^ w2 ^ w3 ^ w4;
    let mut response: Vec<u8> = Vec::new();
    response.push(2u8);
    push_u16(&mut response, results.len() as u16);
    push_u32(&mut response, checksum);
    extend_bytes(&mut response, results.as_slice());
    assert(response@ =~= seq![2u8] + u16_bytes(results@.len() as u16) + u32_bytes(
        digest_checksum(sha1_of(results@)),
    ) + results@);
    Ok(response)
}


/// Progress of the Warden handshake.
#[derive(Debug, Clone, Copy, PartialEq, Eq, Structural)]
pub enum WardenPhase {
    AwaitModule,
    DownloadModule,
    AwaitHash,
    AwaitChecks,
}

/// What a handled Warden packet did.
#[derive(Debug, Clone, Copy, PartialEq, Eq, Structural)]
pub enum WardenEvent {
    ModuleRequested,
    ModuleChunk,
    ModuleVerified,
    HashVerified,
    ModuleInitialized,
    ChecksAnswered,
}

impl WardenEvent {
    /// A short human-readable description.
    pub fn label(self) -> (r: &'static str)
        ensures
            r@ == (match self {
                WardenEvent::ModuleRequested => "module requested"@,
                WardenEvent::ModuleChunk => "module chunk"@,
                WardenEvent::ModuleVerified => "module verified"@,
                WardenEvent::HashVerified => "hash verified"@,
                WardenEvent::ModuleInitialized => "module initialized"@,
                WardenEvent::ChecksAnswered => "checks answered"@,
            }),
    {
        match self {
            WardenEvent::ModuleRequested => "module requested",
            WardenEvent::ModuleChunk => "module chunk",
            WardenEvent::ModuleVerified => "module verified",
            WardenEvent::HashVerified => "hash verified",
            WardenEvent::ModuleInitialized => "module initialized",
            WardenEvent::ChecksAnswered => "checks answered",
        }
    }
}

/// The client's answer to one Warden packet: what happened, and the encrypted reply body if any.
pub struct WardenReply {
    pub event: WardenEvent,
    pub body: Option<Vec<u8>>,
}

/// The abstract state of a Warden client.
pub struct WardenClientState {
    pub input: Rc4State,
    pub output: Rc4State,
    pub phase: WardenPhase,
    pub module: Seq<u8>,
    pub module_size: nat,
    pub image: Option<(u32, Seq<u8>)>,
}

/// The abstract result of handling a packet.
pub type WardenOutcome = Result<(WardenEvent, Option<Seq<u8>>), WardenError>;

/// Encrypts `plain` with the output cipher and reports `event`.
pub open spec fn spec_reply(st: WardenClientState, event: WardenEvent, plain: Seq<u8>) -> (WardenClientState, WardenOutcome) {
    let (out, enc) = rc4_apply(st.output, plain);
    (WardenClientState { output: out, ..st }, Ok((event, Some(enc))))
}

/// Handling a module request (command 0) whose payload is `payload`.
pub open spec fn on_module_request(st1: WardenClientState, payload: Seq<u8>) -> (WardenClientState, WardenOutcome) {
    if st1.phase != WardenPhase::AwaitModule {
        (st1, Err(WardenError::UnexpectedModuleRequest))
    } else if payload.len() != 36 {
        (st1, Err(WardenError::InvalidModuleRequestLength))
    } else if payload.subrange(0, 16) != module_id() {
        (st1, Err(WardenError::UnsupportedModuleId))
    } else {
        let size = u32_at(payload, 32);
        if !(size > 0 && size <= MAX_MODULE_SIZE) {
            (st1, Err(WardenError::InvalidModuleSize))
        } else {
            spec_reply(
                WardenClientState {
                    module_size: size as nat,
                    module: Seq::empty(),
                    phase: WardenPhase::DownloadModule,
                    ..st1
                },
                WardenEvent::ModuleRequested,
                seq![0u8],
            )
        }
    }
}

/// Handling module data (command 1) whose payload is `payload`.
pub open spec fn on_module_data(st1: WardenClientState, payload: Seq<u8>) -> (WardenClientState, WardenOutcome) {
    if st1.phase != WardenPhase::DownloadModule {
        (st1, Err(WardenError::UnexpectedModuleData))
    } else if payload.len() < 2 {
        (st1, Err(WardenError::ShortModuleData))
    } else {
        let chunk = u16_at(payload, 0) as int;
        if chunk != payload.len() - 2 {
            (st1, Err(WardenError::InvalidModuleChunkLength))
        } else if st1.module.len() + chunk > st1.module_size {
            (st1, Err(WardenError::ModuleExceedsAdvertisedSize))
        } else {
            let module = st1.module + payload.subrange(2, payload.len() as int);
            let st2 = WardenClientState { module, ..st1 };
            if module.len() != st1.module_size {
                (st2, Ok((WardenEvent::ModuleChunk, None)))
            } else if md5_of(module) != module_id() {
                (st2, Err(WardenError::ModuleChecksumMismatch))
            } else {
                spec_reply(
                    WardenClientState { phase: WardenPhase::AwaitHash, ..st2 },
                    WardenEvent::ModuleVerified,
                    seq![1u8],
                )
            }
        }
    }
}

/// Handling a hash request (command 5) whose payload is `payload`.
pub open spec fn on_hash_request(st1: WardenClientState, payload: Seq<u8>) -> (WardenClientState, WardenOutcome) {
    if st1.phase != WardenPhase::AwaitHash {
        (st1, Err(WardenError::UnexpectedHashRequest))
    } else if payload != module_seed() {
        (st1, Err(WardenError::UnsupportedHashSeed))
    } else {
        let (st2, outcome) = spec_reply(st1, WardenEvent::HashVerified, seq![4u8] + client_hash());
        (
            WardenClientState {
                input: rc4_init(server_key()),
                output: rc4_init(client_key()),
                phase: WardenPhase::AwaitChecks,
                ..st2
            },
            outcome,
        )
    }
}

/// Handling a checks request (command 2) whose payload is `payload`.
pub open spec fn on_checks(st1: WardenClientState, payload: Seq<u8>, tick: u32) -> (WardenClientState, WardenOutcome) {
    if st1.phase != WardenPhase::AwaitChecks {
        (st1, Err(WardenError::ChecksBeforeHash))
    } else {
        match st1.image {
            None => (st1, Err(WardenError::MissingClientImage)),
            Some((base, image)) => match checks_answer(payload, base, image, tick) {
                Err(e) => (st1, Err(e)),
                Ok(response) => spec_reply(st1, WardenEvent::ChecksAnswered, response),
            },
        }
    }
}

/// The new state and outcome of handling one encrypted Warden packet; `tick` is the
/// client clock reported to timing checks.
pub open spec fn warden_handle(st: WardenClientState, encrypted: Seq<u8>, tick: u32) -> (WardenClientState, WardenOutcome) {
    let (input, body) = rc4_apply(st.input, encrypted);
    let st1 = WardenClientState { input, ..st };
    if body.len() == 0 {
        (st1, Err(WardenError::EmptyPacket))
    } else {
        let command = body[0];
        let payload = body.drop_first();
        if command == 0 {
            on_module_request(st1, payload)
        } else if command == 1 {
            on_module_data(st1, payload)
        } else if command == 5 {
            on_hash_request(st1, payload)
        } else if command == 3 {
            if st1.phase != WardenPhase::AwaitChecks {
                (st1, Err(WardenError::ModuleInitializedBeforeHash))
            } else {
                (st1, Ok((WardenEvent::ModuleInitialized, None)))
            }
        } else if command == 2 {
            on_checks(st1, payload, tick)
        } else {
            (st1, Err(WardenError::UnsupportedCommand(command)))
        }
    }
}

/// The abstract outcome of a concrete reply.
pub open spec fn outcome_of(r: Result<WardenReply, WardenError>) -> WardenOutcome {
    match r {
        Ok(reply) => Ok((reply.event, match reply.body {
            Some(b) => Some(b@),
            None => None,
        })),
        Err(e) => Err(e),
    }
}

/// A headless Warden client.
pub struct WardenClient {
    input: Rc4,
    output: Rc4,
    phase: WardenPhase,
    module: Vec<u8>,
    module_size: usize,
    image: Option<PeImage>,
}

impl View for WardenClient {
    type V = WardenClientState;

    closed spec fn view(&self) -> WardenClientState {
        WardenClientState {
            input: self.input@,
            output: self.output@,
            phase: self.phase,
            module: self.module@,
            module_size: self.module_size as nat,
            image: match self.image {
                Some(img) => Some((img.base, img.bytes@)),
                None => None,
            },
        }
    }
}

impl WardenClient {
    /// The ciphers are well formed and the module fits in its advertised size.
    pub closed spec fn wf(&self) -> bool {
        &&& self.input.wf()
        &&& self.output.wf()
        &&& self.module@.len() <= self.module_size <= MAX_MODULE_SIZE
    }

    /// A client awaiting the module request, keyed from the session key
    /// (server packets with the output key, replies with the input key).
    pub fn new(session_key: &[u8], image: Option<PeImage>) -> (r: Self)
        requires
            session_key@.len() == SESSION_KEY_LEN,
        ensures
            r.wf(),
            r@.input == rc4_init(warden_output_key(session_key@)),
            r@.output == rc4_init(warden_input_key(session_key@)),
            r@.phase == WardenPhase::AwaitModule,
            r@.module == Seq::<u8>::empty(),
            r@.module_size == 0,
            r@.image == (match image {
                Some(img) => Some((img.base, img.bytes@)),
                None => None,
            }),
    {
        let (input, output) = keys(session_key);
        WardenClient {
            input: Rc4::new(output.as_slice()),
            output: Rc4::new(input.as_slice()),
            phase: WardenPhase::AwaitModule,
            module: Vec::new(),
            module_size: 0,
            image,
        }
    }

    /// The current handshake phase.
    pub fn phase(&self) -> (r: WardenPhase)
        ensures
            r == self@.phase,
    {
        self.phase
    }

    fn reply(&mut self, event: WardenEvent, plain: Vec<u8>) -> (r: WardenReply)
        requires
            old(self).wf(),
        ensures
            final(self).wf(),
            (final(self)@, outcome_of(Ok(r))) == spec_reply(old(self)@, event, plain@),
    {
        let mut encrypted = plain;
        self.output.apply(&mut encrypted);
        WardenReply { event, body: Some(encrypted) }
    }

    fn module_request(&mut self, payload: Vec<u8>) -> (r: Result<WardenReply, WardenError>)
        requires
            old(self).wf(),
        ensures
            final(self).wf(),
            (final(self)@, outcome_of(r)) == on_module_request(old(self)@, payload@),
    {
        if self.phase != WardenPhase::AwaitModule {
            return Err(WardenError::UnexpectedModuleRequest);
        }
        if payload.len() != 36 {
            return Err(WardenError::InvalidModuleRequestLength);
        }
        let head = copy_range(payload.as_slice(), 0, 16);
        let id = module_id_bytes();
        if !bytes_equal(head.as_slice(), id.as_slice()) {
            return Err(WardenError::UnsupportedModuleId);
        }
        let size = read_u32_at(payload.as_slice(), 32).unwrap() as usize;
        if !(size > 0 && size <= MAX_MODULE_SIZE) {
            return Err(WardenError::InvalidModuleSize);
        }
        self.module_size = size;
        self.module = Vec::new();
        self.phase = WardenPhase::DownloadModule;
        let plain = vec![0u8];
        assert(plain@ =~= seq![0u8]);
        Ok(self.reply(WardenEvent::ModuleRequested, plain))
    }

    fn module_data(&mut self, payload: Vec<u8>) -> (r: Result<WardenReply, WardenError>)
        requires
            old(self).wf(),
        ensures
            final(self).wf(),
            (final(self)@, outcome_of(r)) == on_module_data(old(self)@, payload@),
    {
        if self.phase != WardenPhase::DownloadModule {
            return Err(WardenError::UnexpectedModuleData);
        }
        if payload.len() < 2 {
            return Err(WardenError::ShortModuleData);
        }
        let chunk_size = read_u16_at(payload.as_slice(), 0).unwrap() as usize;
        if chunk_size != payload.len() - 2 {
            return Err(WardenError::InvalidModuleChunkLength);
        }
        if self.module.len() + chunk_size > self.module_size {
            return Err(WardenError::ModuleExceedsAdvertisedSize);
        }
        let chunk = copy_range(payload.as_slice(), 2, payload.len());
        extend_bytes(&mut self.module, chunk.as_slice());
        if self.module.len() != self.module_size {
            return Ok(WardenReply { event: WardenEvent::ModuleChunk, body: None });
        }
        let digest = md5_digest(self.module.as_slice());
        let id = module_id_bytes();
        if !bytes_equal(&digest, id.as_slice()) {
            return Err(WardenError::ModuleChecksumMismatch);
        }
        self.phase = WardenPhase::AwaitHash;
        let plain = vec![1u8];
        assert(plain@ =~= seq![1u8]);
        Ok(self.reply(WardenEvent::ModuleVerified, plain))
    }

    fn hash_request(&mut self, payload: Vec<u8>) -> (r: Result<WardenReply, WardenError>)
        requires
            old(self).wf(),
        ensures
            final(self).wf(),
            (final(self)@, outcome_of(r)) == on_hash_request(old(self)@, payload@),
    {
        if self.phase != WardenPhase::AwaitHash {
            return Err(WardenError::UnexpectedHashRequest);
        }
        let seed = module_seed_bytes();
        if !bytes_equal(payload.as_slice(), seed.as_slice()) {
            return Err(WardenError::UnsupportedHashSeed);
        }
        let mut response: Vec<u8> = Vec::new();
        response.push(4u8);
        let hash = client_hash_bytes();
        extend_bytes(&mut response, hash.as_slice());
        assert(response@ =~= seq![4u8] + client_hash());
        let result = self.reply(WardenEvent::HashVerified, response);
        let skey = server_key_bytes();
        let ckey = client_key_bytes();
        self.input = Rc4::new(skey.as_slice());
        self.output = Rc4::new(ckey.as_slice());
        self.phase = WardenPhase::AwaitChecks;
        Ok(result)
    }

    fn checks(&mut self, payload: Vec<u8>, tick: u32) -> (r: Result<WardenReply, WardenError>)
        requires
            old(self).wf(),
        ensures
            final(self).wf(),
            (final(self)@, outcome_of(r)) == on_checks(old(self)@, payload@, tick),
    {
        if self.phase != WardenPhase::AwaitChecks {
            return Err(WardenError::ChecksBeforeHash);
        }
        let response = match &self.image {
            None => return Err(WardenError::MissingClientImage),
            Some(image) => checks_response(payload.as_slice(), image, tick),
        };
        match response {
            Err(e) => Err(e),
            Ok(response) => Ok(self.reply(WardenEvent::ChecksAnswered, response)),
        }
    }

    /// Handles one encrypted Warden packet from the server; `tick` is the client's
    /// millisecond clock, reported to timing checks.
    pub fn handle(&mut self, encrypted: &[u8], tick: u32) -> (r: Result<WardenReply, WardenError>)
        requires
            old(self).wf(),
        ensures
            final(self).wf(),
            (final(self)@, outcome_of(r)) == warden_handle(old(self)@, encrypted@, tick),
    {
        let mut body = copy_range(encrypted, 0, encrypted.len());
        assert(body@ =~= encrypted@);
        self.input.apply(&mut body);
        if body.len() == 0 {
            return Err(WardenError::EmptyPacket);
        }
        let command = body[0];
        let payload = copy_range(body.as_slice(), 1, body.len());
        assert(payload@ =~= body@.drop_first());
        if command == 0 {
            self.module_request(payload)
        } else if command == 1 {
            self.module_data(payload)
        } else if command == 5 {
            self.hash_request(payload)
        } else if command == 3 {
            if self.phase != WardenPhase::AwaitChecks {
                return Err(WardenError::ModuleInitializedBeforeHash);
            }
            Ok(WardenReply { event: WardenEvent::ModuleInitialized, body: None })
        } else if command == 2 {
            self.checks(payload, tick)
        } else {
            Err(WardenError::UnsupportedCommand(command))
        }
    }
}

/// Whether two byte strings are equal.
pub fn bytes_equal(a: &[u8], b: &[u8]) -> (r: bool)
    ensures
        r == (a@ == b@),
{
    if a.len() != b.len() {
        return false;
    }
    let mut k: usize = 0;
    while k < a.len()
        invariant
            k <= a@.len(),
            a@.len() == b@.len(),
            forall|m: int| 0 <= m < k ==> a@[m] == b@[m],
        decreases a@.len() - k,
    {
        if a[k] != b[k] {
            return false;
        }
        k = k + 1;
    }
    assert(a@ =~= b@);
    true
}

/// Why a client image could not be loaded.
#[derive(Debug, Clone, Copy, PartialEq, Eq, Structural)]
pub enum PeError {
    ShortHeader,
    NotPe,
    Not32BitPe,
    InvalidImageSize,
    InvalidHeaderSize,
    SectionOutsideFile,
    SectionOutsideImage,
}

/// Largest image the loader maps.
pub const MAX_IMAGE_SIZE: u64 = 67108864;

/// The 16-bit header field at `offset`, if present.
pub open spec fn pe_u16(file: Seq<u8>, offset: int) -> Result<u16, PeError> {
    if 0 <= offset && offset + 2 <= file.len() { Ok(u16_at(file, offset)) } else { Err(PeError::ShortHeader) }
}

/// The 32-bit header field at `offset`, if present.
pub open spec fn pe_u32(file: Seq<u8>, offset: int) -> Result<u32, PeError> {
    if 0 <= offset && offset + 4 <= file.len() { Ok(u32_at(file, offset)) } else { Err(PeError::ShortHeader) }
}

/// `bytes` with `src` written at `at`.
pub open spec fn overwrite(bytes: Seq<u8>, at: int, src: Seq<u8>) -> Seq<u8> {
    bytes.subrange(0, at) + src + bytes.subrange(at + src.len(), bytes.len() as int)
}

/// The image after mapping the first `k` section headers of the table at `table`.
pub open spec fn map_sections(file: Seq<u8>, image: Seq<u8>, table: int, k: nat) -> Result<Seq<u8>, PeError>
    decreases k,
{
    if k == 0 {
        Ok(image)
    } else {
        match map_sections(file, image, table, (k - 1) as nat) {
            Err(e) => Err(e),
            Ok(bytes) => {
                let section = table + (k - 1) * 40;
                match (pe_u32(file, section + 12), pe_u32(file, section + 16), pe_u32(file, section + 20)) {
                    (Ok(va), Ok(raw_size), Ok(raw_offset)) => if raw_offset + raw_size > file.len() {
                        Err(PeError::SectionOutsideFile)
                    } else if va + raw_size > bytes.len() {
                        Err(PeError::SectionOutsideImage)
                    } else {
                        Ok(overwrite(bytes, va as int, file.subrange(raw_offset as int, raw_offset + raw_size)))
                    },
                    (Err(e), _, _) => Err(e),
                    (_, Err(e), _) => Err(e),
                    (_, _, Err(e)) => Err(e),
                }
            },
        }
    }
}

/// Offset of the runtime-initialised sentinel in a clean client mapped at 0x400000.
pub const SENTINEL_OFFSET: usize = 0x6C3DAC;

/// Applies the clean-client runtime value: in an image mapped at 0x400000 whose sentinel
/// word is all 0xFF, the word becomes 4.
pub open spec fn patch_sentinel(base: u32, bytes: Seq<u8>) -> Seq<u8> {
    let o = SENTINEL_OFFSET as int;
    if base == 0x400000 && o + 4 <= bytes.len() && bytes.subrange(o, o + 4) == seq![0xFFu8, 0xFF, 0xFF, 0xFF] {
        overwrite(bytes, o, seq![4u8, 0, 0, 0])
    } else {
        bytes
    }
}

/// The mapped image of a 32-bit PE file: its base and its bytes.
pub open spec fn pe_parse(file: Seq<u8>) -> Result<(u32, Seq<u8>), PeError> {
    match pe_u32(file, 0x3c) {
        Err(e) => Err(e),
        Ok(pe32) => {
            let pe = pe32 as int;
            if !(pe + 4 <= file.len() && file.subrange(pe, pe + 4) == seq![0x50u8, 0x45, 0, 0]) {
                Err(PeError::NotPe)
            } else {
                let optional = pe + 24;
                match (pe_u16(file, pe + 6), pe_u16(file, optional)) {
                    (Err(e), _) => Err(e),
                    (_, Err(e)) => Err(e),
                    (Ok(sections), Ok(magic)) => if magic != 0x10b {
                        Err(PeError::Not32BitPe)
                    } else {
                        match (pe_u32(file, optional + 28), pe_u32(file, optional + 56)) {
                            (Err(e), _) => Err(e),
                            (_, Err(e)) => Err(e),
                            (Ok(base), Ok(image_size)) => if !(image_size > 0 && image_size <= MAX_IMAGE_SIZE) {
                                Err(PeError::InvalidImageSize)
                            } else {
                                match pe_u32(file, optional + 60) {
                                    Err(e) => Err(e),
                                    Ok(header_size) => if !(header_size <= file.len() && header_size <= image_size) {
                                        Err(PeError::InvalidHeaderSize)
                                    } else {
                                        let zeros = Seq::new(image_size as nat, |i: int| 0u8);
                                        let headers = overwrite(zeros, 0, file.subrange(0, header_size as int));
                                        match pe_u16(file, pe + 20) {
                                            Err(e) => Err(e),
                                            Ok(opt_size) => match map_sections(file, headers, optional + opt_size, sections as nat) {
                                                Err(e) => Err(e),
                                                Ok(mapped) => Ok((base, patch_sentinel(base, mapped))),
                                            },
                                        }
                                    },
                                }
                            },
                        }
                    },
                }
            }
        },
    }
}

proof fn lemma_map_sections_err(file: Seq<u8>, image: Seq<u8>, table: int, k: nat, n: nat)
    requires
        k <= n,
        map_sections(file, image, table, k) is Err,
    ensures
        map_sections(file, image, table, n) == map_sections(file, image, table, k),
    decreases n,
{
    if n > k {
        lemma_map_sections_err(file, image, table, k, (n - 1) as nat);
    }
}

fn file_u16(file: &[u8], offset: u64) -> (r: Result<u16, PeError>)
    ensures
        r == pe_u16(file@, offset as int),
{
    if offset > file.len() as u64 {
        return Err(PeError::ShortHeader);
    }
    match read_u16_at(file, offset as usize) {
        Some(v) => Ok(v),
        None => Err(PeError::ShortHeader),
    }
}

fn file_u32(file: &[u8], offset: u64) -> (r: Result<u32, PeError>)
    ensures
        r == pe_u32(file@, offset as int),
{
    if offset > file.len() as u64 {
        return Err(PeError::ShortHeader);
    }
    match read_u32_at(file, offset as usize) {
        Some(v) => Ok(v),
        None => Err(PeError::ShortHeader),
    }
}

/// Writes `src[from..from + len]` into `dst` at `at`.
fn copy_into(dst: &mut Vec<u8>, at: usize, src: &[u8], from: usize, len: usize)
    requires
        at + len <= old(dst)@.len(),
        from + len <= src@.len(),
    ensures
        final(dst)@ == overwrite(old(dst)@, at as int, src@.subrange(from as int, from + len)),
{
    let n = dst.len();
    let m = src.len();
    let mut k: usize = 0;
    while k < len
        invariant
            k <= len,
            n == dst@.len(),
            m == src@.len(),
            at + len <= dst@.len(),
            dst@.len() == old(dst)@.len(),
            from + len <= src@.len(),
            dst@ == overwrite(old(dst)@, at as int, src@.subrange(from as int, from + k)),
        decreases len - k,
    {
        dst.set(at + k, src[from + k]);
        k = k + 1;
        assert(dst@ =~= overwrite(old(dst)@, at as int, src@.subrange(from as int, from + k)));
    }
}

impl PeImage {
    /// Maps a 32-bit PE executable: headers, then each section at its virtual address;
    /// then the clean-client runtime value of the sentinel word.
    pub fn parse(file: &[u8]) -> (r: Result<PeImage, PeError>)
        ensures
            match r {
                Ok(img) => pe_parse(file@) == Ok::<(u32, Seq<u8>), PeError>((img.base, img.bytes@)),
                Err(e) => pe_parse(file@) == Err::<(u32, Seq<u8>), PeError>(e),
            },
    {
        let pe = file_u32(file, 0x3c)? as u64;
        if !(pe + 4 <= file.len() as u64) {
            return Err(PeError::NotPe);
        }
        let p = pe as usize;
        if !(file[p] == 0x50 && file[p + 1] == 0x45 && file[p + 2] == 0 && file[p + 3] == 0) {
            assert(file@.subrange(pe as int, pe + 4)[0] == file@[p as int]);
            assert(file@.subrange(pe as int, pe + 4)[1] == file@[p + 1]);
            assert(file@.subrange(pe as int, pe + 4)[2] == file@[p + 2]);
            assert(file@.subrange(pe as int, pe + 4)[3] == file@[p + 3]);
            return Err(PeError::NotPe);
        }
        assert(file@.subrange(pe as int, pe + 4) =~= seq![0x50u8, 0x45, 0, 0]);
        let optional = pe + 24;
        let sections = file_u16(file, pe + 6)?;
        let magic = file_u16(file, optional)?;
        if magic != 0x10b {
            return Err(PeError::Not32BitPe);
        }
        let base = file_u32(file, optional + 28)?;
        let image_size = file_u32(file, optional + 56)? as u64;
        if !(image_size > 0 && image_size <= MAX_IMAGE_SIZE) {
            return Err(PeError::InvalidImageSize);
        }
        let header_size = file_u32(file, optional + 60)? as u64;
        if !(header_size <= file.len() as u64 && header_size <= image_size) {
            return Err(PeError::InvalidHeaderSize);
        }
        let mut bytes: Vec<u8> = vec![0u8; image_size as usize];
        assert(bytes@ =~= Seq::new(image_size as nat, |i: int| 0u8));
        copy_into(&mut bytes, 0, file, 0, header_size as usize);
        assert(file@.subrange(0, header_size as int) =~= file@.subrange(0int, 0 + header_size));
        let opt_size = file_u16(file, pe + 20)? as u64;
        let table = optional + opt_size;
        let ghost headers = bytes@;
        let mut index: u64 = 0;
        while index < sections as u64
            invariant
                index <= sections,
                table == optional + opt_size,
                optional == pe + 24,
                pe < 0x1_0000_0000,
                opt_size < 0x10000,
                map_sections(file@, headers, table as int, index as nat) == Ok::<Seq<u8>, PeError>(bytes@),
                pe_parse(file@) == (match map_sections(file@, headers, table as int, sections as nat) {
                    Err(e) => Err(e),
                    Ok(mapped) => Ok((base, patch_sentinel(base, mapped))),
                }),
            decreases sections - index,
        {
            let section = table + index * 40;
            let va = match file_u32(file, section + 12) {
                Ok(v) => v as u64,
                Err(e) => {
                    proof { lemma_map_sections_err(file@, headers, table as int, (index + 1) as nat, sections as nat); }
                    return Err(e);
                },
            };
            let raw_size = match file_u32(file, section + 16) {
                Ok(v) => v as u64,
                Err(e) => {
                    proof { lemma_map_sections_err(file@, headers, table as int, (index + 1) as nat, sections as nat); }
                    return Err(e);
                },
            };
            let raw_offset = match file_u32(file, section + 20) {
                Ok(v) => v as u64,
                Err(e) => {
                    proof { lemma_map_sections_err(file@, headers, table as int, (index + 1) as nat, sections as nat); }
                    return Err(e);
                },
            };
            if raw_offset + raw_size > file.len() as u64 {
                proof { lemma_map_sections_err(file@, headers, table as int, (index + 1) as nat, sections as nat); }
                return Err(PeError::SectionOutsideFile);
            }
            if va + raw_size > bytes.len() as u64 {
                proof { lemma_map_sections_err(file@, headers, table as int, (index + 1) as nat, sections as nat); }
                return Err(PeError::SectionOutsideImage);
            }
            copy_into(&mut bytes, va as usize, file, raw_offset as usize, raw_size as usize);
            index = index + 1;
        }
        let o = SENTINEL_OFFSET;
        if base == 0x400000 && o + 4 <= bytes.len() {
            let ghost before = bytes@;
            if bytes[o] == 0xFF && bytes[o + 1] == 0xFF && bytes[o + 2] == 0xFF && bytes[o + 3] == 0xFF {
                assert(before.subrange(o as int, o + 4) =~= seq![0xFFu8, 0xFF, 0xFF, 0xFF]);
                bytes.set(o, 4u8);
                bytes.set(o + 1, 0u8);
                bytes.set(o + 2, 0u8);
                bytes.set(o + 3, 0u8);
                assert(bytes@ =~= overwrite(before, o as int, seq![4u8, 0, 0, 0]));
            } else {
                assert(before.subrange(o as int, o + 4)[0] == before[o as int]);
                assert(before.subrange(o as int, o + 4)[1] == before[o + 1]);
                assert(before.subrange(o as int, o + 4)[2] == before[o + 2]);
                assert(before.subrange(o as int, o + 4)[3] == before[o + 3]);
            }
        }
        Ok(PeImage { base, bytes })
    }
}

} // verus!
