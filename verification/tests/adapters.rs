use uio_core::descriptor::TransferDescriptor;
use uio_core::error::TransferError;
use uio_core::primitive::PrimitiveOutcome;
use uio_core::reader::UioReader;
use uio_core::writer::UioWriter;

fn success(remaining: isize, offset: i64) -> PrimitiveOutcome {
    PrimitiveOutcome { status: 0, remaining, offset }
}

#[test]
fn constructor_and_accessors() {
    let reader = UioReader::new(TransferDescriptor::new(42, 17));
    assert_eq!(reader.residual(), 42);
    assert_eq!(reader.offset(), 17);

    let writer = UioWriter::new(TransferDescriptor::new(-3, 1));
    assert_eq!(writer.residual(), -3);
    assert_eq!(writer.offset(), 1);
}

#[test]
fn zero_length_read_is_a_noop() {
    let mut reader = UioReader::new(TransferDescriptor::new(5, 3));
    let result = reader.read(0, success(5, 3));
    assert_eq!(result, Ok(0));
    assert_eq!(reader.residual(), 5);
    assert_eq!(reader.offset(), 3);
}

#[test]
fn zero_length_write_is_a_noop() {
    let mut writer = UioWriter::new(TransferDescriptor::new(9, -2));
    let result = writer.write(0, success(9, -2));
    assert_eq!(result, Ok(0));
    assert_eq!(writer.residual(), 9);
    assert_eq!(writer.offset(), -2);
}

#[test]
fn exhausted_descriptor_write_returns_zero() {
    let mut writer = UioWriter::new(TransferDescriptor::new(0, 7));
    let result = writer.write(64, success(0, 7));
    assert_eq!(result, Ok(0));
    assert_eq!(writer.residual(), 0);
    assert_eq!(writer.offset(), 7);
}

#[test]
fn exhausted_descriptor_read_returns_zero() {
    // descriptor with nothing left: a 64-byte read moves nothing, no error
    let mut reader = UioReader::new(TransferDescriptor::new(0, 0));
    let result = reader.read(64, success(0, 0));
    assert_eq!(result, Ok(0));
    assert_eq!(reader.residual(), 0);
}

#[test]
fn write_consumes_up_to_remaining() {
    // 10 bytes left, 16 offered: the primitive drains the descriptor and the
    // call reports exactly 10 bytes moved
    let mut writer = UioWriter::new(TransferDescriptor::new(10, 0));
    let result = writer.write(16, success(0, 10));
    assert_eq!(result, Ok(10));
    assert_eq!(writer.residual(), 0);
    assert_eq!(writer.offset(), 10);
}

#[test]
fn read_reports_counter_difference() {
    let mut reader = UioReader::new(TransferDescriptor::new(100, 0));
    let result = reader.read(64, success(36, 64));
    assert_eq!(result, Ok(64));
    assert_eq!(reader.residual(), 36);
    assert_eq!(reader.offset(), 64);
}

#[test]
fn successive_writes_account_exactly() {
    let mut writer = UioWriter::new(TransferDescriptor::new(10, 0));
    assert_eq!(writer.write(4, success(6, 4)), Ok(4));
    assert_eq!(writer.write(4, success(2, 8)), Ok(4));
    assert_eq!(writer.write(4, success(0, 10)), Ok(2));
    assert_eq!(writer.residual(), 0);
    assert_eq!(writer.offset(), 10);
}

#[test]
fn oversized_read_buffer_is_rejected() {
    let mut reader = UioReader::new(TransferDescriptor::new(10, 0));
    let result = reader.read(0x8000_0000, success(0, 10));
    assert_eq!(result, Err(TransferError::InvalidInput));
    // the primitive never ran: the descriptor is untouched
    assert_eq!(reader.residual(), 10);
    assert_eq!(reader.offset(), 0);
}

#[test]
fn oversized_write_buffer_is_rejected() {
    let mut writer = UioWriter::new(TransferDescriptor::new(10, 0));
    let result = writer.write(0x8000_0000, success(0, 10));
    assert_eq!(result, Err(TransferError::InvalidInput));
    assert_eq!(writer.residual(), 10);
    assert_eq!(writer.offset(), 0);
}

#[test]
fn largest_accepted_buffer_is_not_rejected() {
    let mut reader = UioReader::new(TransferDescriptor::new(3, 0));
    let result = reader.read(0x7fff_ffff, success(0, 3));
    assert_eq!(result, Ok(3));
}

#[test]
fn primitive_failure_is_propagated_with_its_status() {
    let mut writer = UioWriter::new(TransferDescriptor::new(10, 0));
    let outcome = PrimitiveOutcome { status: 14, remaining: 8, offset: 2 };
    let result = writer.write(4, outcome);
    assert_eq!(result, Err(TransferError::PrimitiveFailure(14)));
    // a failed call leaves the descriptor as the primitive left it
    assert_eq!(writer.residual(), 8);
    assert_eq!(writer.offset(), 2);
}

#[test]
fn reader_propagates_primitive_failure_too() {
    let mut reader = UioReader::new(TransferDescriptor::new(10, 0));
    let result = reader.read(4, PrimitiveOutcome { status: -1, remaining: 10, offset: 0 });
    assert_eq!(result, Err(TransferError::PrimitiveFailure(-1)));
}

#[test]
fn counter_that_grew_is_an_accounting_error() {
    // a primitive that reports success while the counter rose cannot yield a
    // truthful count
    let mut reader = UioReader::new(TransferDescriptor::new(10, 0));
    let result = reader.read(4, success(12, 0));
    assert_eq!(result, Err(TransferError::AmountOutOfRange));
    assert_eq!(reader.residual(), 12);
}

#[test]
fn negative_remaining_is_handled_defensively() {
    let mut reader = UioReader::new(TransferDescriptor::new(-3, 1));
    let result = reader.read(4, success(-3, 1));
    assert_eq!(result, Ok(0));
    assert_eq!(reader.residual(), -3);
}

#[test]
fn flush_always_succeeds_and_changes_nothing() {
    let mut writer = UioWriter::new(TransferDescriptor::new(10, 5));
    assert_eq!(writer.flush(), Ok(()));
    assert_eq!(writer.flush(), Ok(()));
    assert_eq!(writer.residual(), 10);
    assert_eq!(writer.offset(), 5);

    assert_eq!(writer.write(4, success(6, 9)), Ok(4));
    assert_eq!(writer.flush(), Ok(()));
    assert_eq!(writer.residual(), 6);
    assert_eq!(writer.offset(), 9);
}
