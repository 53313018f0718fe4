//! Text of the bring-up diagnostics: fixed-width lowercase hex and the
//! `RFDBG_*` trace lines. The lines are built here; emitting them on the UART
//! is the caller's I/O.
use vstd::prelude::*;
use vstd::string::StringSliceAdditionalSpecFns;

verus! {

/// ASCII lowercase hex digit of a nibble.
pub open spec fn hex_digit(n: u32) -> u8 {
    if n < 10 {
        (48 + n) as u8
    } else {
        (87 + n) as u8
    }
}

/// The `i`-th nibble of `value`, most significant first.
pub open spec fn nibble(value: u32, i: int) -> u32 {
    (value >> ((7 - i) * 4) as u32) & 0xf
}

/// Eight lowercase hex digits of `value`, most significant first.
pub open spec fn hex8_spec(value: u32) -> Seq<u8> {
    Seq::new(8, |i: int| hex_digit(nibble(value, i)))
}

/// `0x` followed by the eight hex digits of `value`.
pub open spec fn hex32_spec(value: u32) -> Seq<u8> {
    seq![48u8, 120u8] + hex8_spec(value)
}

/// Two lowercase hex digits per byte, high nibble first.
pub open spec fn hex_bytes_spec(bytes: Seq<u8>) -> Seq<u8> {
    Seq::new(
        2 * bytes.len(),
        |i: int|
            if i % 2 == 0 {
                hex_digit((bytes[i / 2] >> 4u8) as u32)
            } else {
                hex_digit((bytes[i / 2] & 0xfu8) as u32)
            },
    )
}

/// Eight lowercase hex digits of `value`, most significant nibble first.
pub fn hex8(value: u32) -> (output: [u8; 8])
    ensures
        output@ == hex8_spec(value),
{
    let mut output = [0u8; 8];
    let mut index: usize = 0;
    while index < 8
        invariant
            index <= 8,
            output@.len() == 8,
            forall|i: int| 0 <= i < index ==> output@[i] == hex_digit(nibble(value, i)),
        decreases 8 - index,
    {
        let shift: u32 = ((7 - index) * 4) as u32;
        let n: u32 = (value >> shift) & 0xf;
        assert(n < 16) by (bit_vector)
            requires
                n == (value >> shift) & 0xf,
        ;
        output[index] = if n < 10 {
            48u8 + n as u8
        } else {
            97u8 + (n - 10) as u8
        };
        index += 1;
    }
    assert(output@ =~= hex8_spec(value));
    output
}

/// `0x` and eight lowercase hex digits (the `emit_hex32` rendering).
pub fn hex32(value: u32) -> (output: [u8; 10])
    ensures
        output@ == hex32_spec(value),
{
    let digits = hex8(value);
    let mut output = [48u8, 120u8, 0, 0, 0, 0, 0, 0, 0, 0];
    let mut index: usize = 0;
    while index < 8
        invariant
            index <= 8,
            output@.len() == 10,
            digits@ == hex8_spec(value),
            output@[0] == 48u8,
            output@[1] == 120u8,
            forall|i: int| 0 <= i < index ==> output@[i + 2] == digits@[i],
        decreases 8 - index,
    {
        output[index + 2] = digits[index];
        index += 1;
    }
    assert(output@ =~= hex32_spec(value));
    output
}

/// Hex encoding of at most 30 bytes (the diagnostic buffer holds 60 digits).
pub fn hex_bytes(bytes: &[u8]) -> (encoded: Vec<u8>)
    requires
        bytes.len() <= 30,
    ensures
        encoded@ == hex_bytes_spec(bytes@),
{
    let mut encoded: Vec<u8> = Vec::new();
    let mut index: usize = 0;
    while index < bytes.len()
        invariant
            index <= bytes.len() <= 30,
            encoded@.len() == 2 * index,
            forall|i: int| 0 <= i < 2 * index ==> encoded@[i] == hex_bytes_spec(bytes@)[i],
        decreases bytes.len() - index,
    {
        let byte = bytes[index];
        let high = byte >> 4u8;
        let low = byte & 0xfu8;
        assert(high < 16 && low < 16) by (bit_vector)
            requires
                high == byte >> 4u8,
                low == byte & 0xfu8,
        ;
        encoded.push(if high < 10 { 48u8 + high } else { 97u8 + (high - 10) });
        encoded.push(if low < 10 { 48u8 + low } else { 97u8 + (low - 10) });
        index += 1;
    }
    assert(encoded@ =~= hex_bytes_spec(bytes@));
    encoded
}

/// Append raw bytes.
pub fn push_bytes(line: &mut Vec<u8>, bytes: &[u8])
    ensures
        final(line)@ == old(line)@ + bytes@,
{
    let mut index: usize = 0;
    while index < bytes.len()
        invariant
            index <= bytes.len(),
            line@ == old(line)@ + bytes@.subrange(0, index as int),
        decreases bytes.len() - index,
    {
        line.push(bytes[index]);
        index += 1;
        assert(line@ =~= old(line)@ + bytes@.subrange(0, index as int));
    }
    assert(bytes@.subrange(0, bytes.len() as int) =~= bytes@);
}

/// Append the bytes of a string.
pub fn push_str(line: &mut Vec<u8>, text: &str)
    ensures
        final(line)@ == old(line)@ + text.spec_bytes(),
{
    push_bytes(line, text.as_bytes());
}

/// Append `label` and the eight hex digits of `value`.
pub fn push_hex_field(line: &mut Vec<u8>, label: &str, value: u32)
    ensures
        final(line)@ == old(line)@ + label.spec_bytes() + hex8_spec(value),
{
    push_str(line, label);
    let digits = hex8(value);
    push_bytes(line, &digits);
}

/// `RFDBG_STAGE <name>=0x<result>\r\n`.
pub fn trace_stage_line(name: &[u8], result: u32) -> (line: Vec<u8>)
    ensures
        line@ == "RFDBG_STAGE ".spec_bytes() + name@ + "=0x".spec_bytes() + hex8_spec(result)
            + "\r\n".spec_bytes(),
{
    let mut line: Vec<u8> = Vec::new();
    push_str(&mut line, "RFDBG_STAGE ");
    push_bytes(&mut line, name);
    push_hex_field(&mut line, "=0x", result);
    push_str(&mut line, "\r\n");
    line
}

/// `RFDBG_NV key=… max=… len=… ret=…` for one NV read.
pub fn trace_nv_line(key: u16, max_len: u16, actual_len: u16, result: u32) -> (line: Vec<u8>)
    ensures
        line@ == "RFDBG_NV key=0x".spec_bytes() + hex8_spec(key as u32) + " max=0x".spec_bytes()
            + hex8_spec(max_len as u32) + " len=0x".spec_bytes() + hex8_spec(actual_len as u32)
            + " ret=0x".spec_bytes() + hex8_spec(result) + "\r\n".spec_bytes(),
{
    let mut line: Vec<u8> = Vec::new();
    push_hex_field(&mut line, "RFDBG_NV key=0x", key as u32);
    push_hex_field(&mut line, " max=0x", max_len as u32);
    push_hex_field(&mut line, " len=0x", actual_len as u32);
    push_hex_field(&mut line, " ret=0x", result);
    push_str(&mut line, "\r\n");
    line
}

/// `RFDBG_BAD_FREE ptr=… total=… magic=… ra=…` for a rejected free.
pub fn trace_bad_free_line(ptr: u32, total: u32, magic: u32, caller: u32) -> (line: Vec<u8>)
    ensures
        line@ == "RFDBG_BAD_FREE ptr=0x".spec_bytes() + hex8_spec(ptr) + " total=0x".spec_bytes()
            + hex8_spec(total) + " magic=0x".spec_bytes() + hex8_spec(magic) + " ra=0x".spec_bytes()
            + hex8_spec(caller) + "\r\n".spec_bytes(),
{
    let mut line: Vec<u8> = Vec::new();
    push_hex_field(&mut line, "RFDBG_BAD_FREE ptr=0x", ptr);
    push_hex_field(&mut line, " total=0x", total);
    push_hex_field(&mut line, " magic=0x", magic);
    push_hex_field(&mut line, " ra=0x", caller);
    push_str(&mut line, "\r\n");
    line
}

/// `RFDBG_TASK <event> slot=… entry=… arg=… stack=…`; values are shown as
/// their low 32 bits.
pub fn trace_task_line(event: &[u8], slot: u32, entry: u32, arg: u32, stack_size: u32) -> (line: Vec<u8>)
    ensures
        line@ == "RFDBG_TASK ".spec_bytes() + event@ + " slot=0x".spec_bytes() + hex8_spec(slot)
            + " entry=0x".spec_bytes() + hex8_spec(entry) + " arg=0x".spec_bytes() + hex8_spec(arg)
            + " stack=0x".spec_bytes() + hex8_spec(stack_size) + "\r\n".spec_bytes(),
{
    let mut line: Vec<u8> = Vec::new();
    push_str(&mut line, "RFDBG_TASK ");
    push_bytes(&mut line, event);
    push_hex_field(&mut line, " slot=0x", slot);
    push_hex_field(&mut line, " entry=0x", entry);
    push_hex_field(&mut line, " arg=0x", arg);
    push_hex_field(&mut line, " stack=0x", stack_size);
    push_str(&mut line, "\r\n");
    line
}

/// `RFDBG_WAIT <event> task=… wait=… timeout=… ret=… ra=…`.
pub fn trace_wait_line(event: &[u8], task: u32, wait: u32, timeout_ms: u32, result: u32, caller: u32) -> (line: Vec<u8>)
    ensures
        line@ == "RFDBG_WAIT ".spec_bytes() + event@ + " task=0x".spec_bytes() + hex8_spec(task)
            + " wait=0x".spec_bytes() + hex8_spec(wait) + " timeout=0x".spec_bytes() + hex8_spec(timeout_ms)
            + " ret=0x".spec_bytes() + hex8_spec(result) + " ra=0x".spec_bytes() + hex8_spec(caller)
            + "\r\n".spec_bytes(),
{
    let mut line: Vec<u8> = Vec::new();
    push_str(&mut line, "RFDBG_WAIT ");
    push_bytes(&mut line, event);
    push_hex_field(&mut line, " task=0x", task);
    push_hex_field(&mut line, " wait=0x", wait);
    push_hex_field(&mut line, " timeout=0x", timeout_ms);
    push_hex_field(&mut line, " ret=0x", result);
    push_hex_field(&mut line, " ra=0x", caller);
    push_str(&mut line, "\r\n");
    line
}

/// `RFDBG_TIMER <event> timer=… handler=… data=… interval=…`.
pub fn trace_timer_line(event: &[u8], timer: u32, handler: u32, data: u32, interval_ms: u32) -> (line: Vec<u8>)
    ensures
        line@ == "RFDBG_TIMER ".spec_bytes() + event@ + " timer=0x".spec_bytes() + hex8_spec(timer)
            + " handler=0x".spec_bytes() + hex8_spec(handler) + " data=0x".spec_bytes() + hex8_spec(data)
            + " interval=0x".spec_bytes() + hex8_spec(interval_ms) + "\r\n".spec_bytes(),
{
    let mut line: Vec<u8> = Vec::new();
    push_str(&mut line, "RFDBG_TIMER ");
    push_bytes(&mut line, event);
    push_hex_field(&mut line, " timer=0x", timer);
    push_hex_field(&mut line, " handler=0x", handler);
    push_hex_field(&mut line, " data=0x", data);
    push_hex_field(&mut line, " interval=0x", interval_ms);
    push_str(&mut line, "\r\n");
    line
}

/// `RFDBG_MSG <kind> id=0x… len=0x… ret=0x…` for one synchronous message.
pub fn trace_message_line(kind: &[u8], msg_id: u16, len: u16, result: u32) -> (line: Vec<u8>)
    ensures
        line@ == "RFDBG_MSG ".spec_bytes() + kind@ + " id=0x".spec_bytes() + hex8_spec(msg_id as u32)
            + " len=0x".spec_bytes() + hex8_spec(len as u32) + " ret=0x".spec_bytes() + hex8_spec(result)
            + "\r\n".spec_bytes(),
{
    let mut line: Vec<u8> = Vec::new();
    push_str(&mut line, "RFDBG_MSG ");
    push_bytes(&mut line, kind);
    push_hex_field(&mut line, " id=0x", msg_id as u32);
    push_hex_field(&mut line, " len=0x", len as u32);
    push_hex_field(&mut line, " ret=0x", result);
    push_str(&mut line, "\r\n");
    line
}

/// `RFDBG_OPS cfg=0x… ra=0x…` for the RF front-end ops hook.
pub fn rf_ops_line(cfg: u8, caller: u32) -> (line: Vec<u8>)
    ensures
        line@ == "RFDBG_OPS cfg=0x".spec_bytes() + hex8_spec(cfg as u32) + " ra=0x".spec_bytes() + hex8_spec(caller)
            + "\r\n".spec_bytes(),
{
    let mut line: Vec<u8> = Vec::new();
    push_hex_field(&mut line, "RFDBG_OPS cfg=0x", cfg as u32);
    push_hex_field(&mut line, " ra=0x", caller);
    push_str(&mut line, "\r\n");
    line
}

/// The bytes of a C string shown in a trace: up to its terminator, at most
/// 32 of them.
pub open spec fn traced_name(name: Seq<u8>) -> Seq<u8>
    decreases name.len(),
{
    if name.len() == 0 || name[0] == 0 {
        Seq::empty()
    } else {
        seq![name[0]] + traced_name(name.drop_first())
    }
}

/// The name as traced: `<null>` without one, else its first bytes up to the
/// terminator, at most 32.
pub open spec fn traced_name_text(name: Option<Seq<u8>>) -> Seq<u8> {
    match name {
        Some(bytes) => traced_name(bytes.take(if bytes.len() < 32 { bytes.len() as int } else { 32 })),
        None => "<null>".spec_bytes(),
    }
}

proof fn lemma_traced_name_step(name: Seq<u8>, i: int)
    requires
        0 <= i < name.len(),
        forall|j: int| 0 <= j < i ==> name[j] != 0,
        name[i] != 0,
    ensures
        traced_name(name.take(i + 1)) == traced_name(name.take(i)).push(name[i]),
    decreases i,
{
    if i == 0 {
        assert(name.take(1).drop_first() =~= Seq::<u8>::empty());
        assert(traced_name(name.take(0)) == Seq::<u8>::empty());
        assert(traced_name(name.take(1)) == seq![name[0]] + traced_name(Seq::<u8>::empty()));
        assert(seq![name[0]] + Seq::<u8>::empty() =~= Seq::<u8>::empty().push(name[0]));
    } else {
        let tail = name.drop_first();
        lemma_traced_name_step(tail, i - 1);
        assert(name.take(i + 1).drop_first() =~= tail.take(i));
        assert(name.take(i).drop_first() =~= tail.take(i - 1));
        assert(seq![name[0]] + traced_name(tail.take(i - 1)).push(tail[i - 1]) =~= (seq![name[0]]
            + traced_name(tail.take(i - 1))).push(name[i]));
    }
}

proof fn lemma_traced_name_stop(name: Seq<u8>, i: int)
    requires
        0 <= i <= name.len(),
        forall|j: int| 0 <= j < i ==> name[j] != 0,
        i == name.len() || name[i] == 0,
    ensures
        traced_name(name) == traced_name(name.take(i)),
    decreases i,
{
    if i == 0 {
        assert(name.take(0) =~= Seq::<u8>::empty());
    } else {
        lemma_traced_name_stop(name.drop_first(), i - 1);
        assert(name.take(i).drop_first() =~= name.drop_first().take(i - 1));
    }
}

/// `RFDBG_NET lookup=<name> result=0x…` for a netdev lookup by name.
pub fn netdev_lookup_line(name: Option<&[u8]>, result: u32) -> (line: Vec<u8>)
    ensures
        line@ == "RFDBG_NET lookup=".spec_bytes() + traced_name_text(
            match name {
                Some(b) => Some(b@),
                None => None,
            },
        ) + " result=0x".spec_bytes() + hex8_spec(result) + "\r\n".spec_bytes(),
{
    let mut line: Vec<u8> = Vec::new();
    push_str(&mut line, "RFDBG_NET lookup=");
    let ghost head = line@;
    match name {
        Some(bytes) => {
            let n: usize = if bytes.len() < 32 { bytes.len() } else { 32 };
            let ghost window = bytes@.take(n as int);
            let mut i: usize = 0;
            while i < n && bytes[i] != 0
                invariant
                    i <= n <= bytes@.len(),
                    n <= 32,
                    window == bytes@.take(n as int),
                    forall|j: int| 0 <= j < i ==> window[j] != 0,
                    line@ == head + traced_name(window.take(i as int)),
                decreases n - i,
            {
                proof {
                    lemma_traced_name_step(window, i as int);
                }
                line.push(bytes[i]);
                i += 1;
            }
            proof {
                lemma_traced_name_stop(window, i as int);
            }
        },
        None => {
            push_str(&mut line, "<null>");
        },
    }
    push_hex_field(&mut line, " result=0x", result);
    push_str(&mut line, "\r\n");
    line
}

/// `RFDBG_NET register=0x… ret=0x…` for a netdev registration.
pub fn netdev_register_line(netdev: u32, result: u32) -> (line: Vec<u8>)
    ensures
        line@ == "RFDBG_NET register=0x".spec_bytes() + hex8_spec(netdev) + " ret=0x".spec_bytes() + hex8_spec(result)
            + "\r\n".spec_bytes(),
{
    let mut line: Vec<u8> = Vec::new();
    push_hex_field(&mut line, "RFDBG_NET register=0x", netdev);
    push_hex_field(&mut line, " ret=0x", result);
    push_str(&mut line, "\r\n");
    line
}

/// `RFDBG_IRQ <event> irq=0x…` for one IRQ management call.
pub fn irq_event_line(event: &[u8], irq: u32) -> (line: Vec<u8>)
    ensures
        line@ == "RFDBG_IRQ ".spec_bytes() + event@ + " irq=0x".spec_bytes() + hex8_spec(irq)
            + "\r\n".spec_bytes(),
{
    let mut line: Vec<u8> = Vec::new();
    push_str(&mut line, "RFDBG_IRQ ");
    push_bytes(&mut line, event);
    push_hex_field(&mut line, " irq=0x", irq);
    push_str(&mut line, "\r\n");
    line
}

/// `RFDBG_FRW_QUEUE_CORRUPT irq=… before=… after=…`.
pub fn frw_queue_corruption_line(irq: u32, before: u32, after: u32) -> (line: Vec<u8>)
    ensures
        line@ == "RFDBG_FRW_QUEUE_CORRUPT irq=0x".spec_bytes() + hex8_spec(irq) + " before=0x".spec_bytes()
            + hex8_spec(before) + " after=0x".spec_bytes() + hex8_spec(after) + "\r\n".spec_bytes(),
{
    let mut line: Vec<u8> = Vec::new();
    push_hex_field(&mut line, "RFDBG_FRW_QUEUE_CORRUPT irq=0x", irq);
    push_hex_field(&mut line, " before=0x", before);
    push_hex_field(&mut line, " after=0x", after);
    push_str(&mut line, "\r\n");
    line
}

/// `[wifi:E] ` / `[wifi:W] ` / `[wifi:I] ` / `[wifi:?] ` by the level bits 6..8.
pub open spec fn wifi_level_tag(presspara: u32) -> Seq<u8> {
    let level = (presspara >> 6u32) & 0x3;
    if level == 1 {
        "[wifi:E] ".spec_bytes()
    } else if level == 2 {
        "[wifi:W] ".spec_bytes()
    } else if level == 3 {
        "[wifi:I] ".spec_bytes()
    } else {
        "[wifi:?] ".spec_bytes()
    }
}

/// File id packed into a vendor `para_press` word.
pub open spec fn wifi_file_id(presspara: u32) -> u32 {
    ((presspara >> 6u32) & 0x3fc) | ((presspara >> 16u32) & 0x3)
}

/// Source line packed into a vendor `para_press` word.
pub open spec fn wifi_line(presspara: u32) -> u32 {
    ((presspara >> 24u32) & 0xff) | ((presspara >> 10u32) & 0x3f00)
}

/// ` 0x<arg>` for each argument in order.
pub open spec fn wifi_args_text(args: Seq<u32>) -> Seq<u8>
    decreases args.len(),
{
    if args.len() == 0 {
        Seq::empty()
    } else {
        wifi_args_text(args.drop_last()) + " ".spec_bytes() + hex32_spec(args.last())
    }
}

/// The compact hex rendering of one `log_event_wifi_print*` call.
pub fn wifi_event_line(presspara: u32, args: &[u32]) -> (line: Vec<u8>)
    ensures
        line@ == wifi_level_tag(presspara) + "file=".spec_bytes() + hex32_spec(wifi_file_id(presspara))
            + " line=".spec_bytes() + hex32_spec(wifi_line(presspara)) + " ".spec_bytes()
            + "press=".spec_bytes() + hex32_spec(presspara) + wifi_args_text(args@) + "\r\n".spec_bytes(),
{
    let level = (presspara >> 6u32) & 0x3;
    let tag = if level == 1 {
        "[wifi:E] "
    } else if level == 2 {
        "[wifi:W] "
    } else if level == 3 {
        "[wifi:I] "
    } else {
        "[wifi:?] "
    };
    let file_id = ((presspara >> 6u32) & 0x3fc) | ((presspara >> 16u32) & 0x3);
    let line_no = ((presspara >> 24u32) & 0xff) | ((presspara >> 10u32) & 0x3f00);
    let mut line: Vec<u8> = Vec::new();
    push_str(&mut line, tag);
    push_str(&mut line, "file=");
    let text = hex32(file_id);
    push_bytes(&mut line, &text);
    push_str(&mut line, " line=");
    let text = hex32(line_no);
    push_bytes(&mut line, &text);
    push_str(&mut line, " ");
    push_str(&mut line, "press=");
    let text = hex32(presspara);
    push_bytes(&mut line, &text);
    let ghost head = line@;
    let mut index: usize = 0;
    while index < args.len()
        invariant
            index <= args.len(),
            line@ == head + wifi_args_text(args@.subrange(0, index as int)),
        decreases args.len() - index,
    {
        push_str(&mut line, " ");
        let text = hex32(args[index]);
        push_bytes(&mut line, &text);
        proof {
            let next = args@.subrange(0, index + 1);
            assert(next.drop_last() =~= args@.subrange(0, index as int));
            assert(next.last() == args@[index as int]);
        }
        index += 1;
    }
    assert(args@.subrange(0, args.len() as int) =~= args@);
    push_str(&mut line, "\r\n");
    line
}

} // verus!
