use alglobo::big_endian::{be_byte_buffer_to_u64, push_be_u64};
use alglobo::entity_data::{Entity, EntityData};
use alglobo::entity_logger::{seconds_to_datetime, DateTime};
use alglobo::entity_messenger::{serve_transaction, ServeTransaction};
use alglobo::transaction::Transaction;
use alglobo::transaction_response::TransactionResponse;
use alglobo::entity_payload::EntityPayload;
use alglobo::entity_type::EntityType;
use alglobo::transaction_request::TransactionRequest;
use alglobo::transaction_state::{DecodeError, TransactionState};

#[test]
fn test_datetime() {
    let mut tm = DateTime::new();
    // A moment of the twelfth of June 2022.
    let n_secs: i64 = 1_655_000_000;
    seconds_to_datetime(n_secs, &mut tm);
    let datetime = tm.to_string();
    assert_eq!("2022", &datetime[0..4]);
    assert_eq!("06", &datetime[5..7]);
}

#[test]
fn test_get_entities_data() {
    let t_hotel = TransactionRequest::new(0, 10, 0, 0);
    let data = &t_hotel.get_entities_data()[0];
    assert_eq!(format!("{:?}", data.0), "Hotel");
    assert_eq!(data.1.cost, 10);
    assert_eq!(data.1.transaction_id, 0);

    let t_banco = TransactionRequest::new(1, 0, 10, 0);
    let data = &t_banco.get_entities_data()[0];
    assert_eq!(format!("{:?}", data.0), "Bank");
    assert_eq!(data.1.cost, 10);
    assert_eq!(data.1.transaction_id, 1);

    let t_airline = TransactionRequest::new(2, 0, 0, 10);
    let data = &t_airline.get_entities_data()[0];
    assert_eq!(format!("{:?}", data.0), "Airline");
    assert_eq!(data.1.cost, 10);
    assert_eq!(data.1.transaction_id, 2);
}

#[test]
fn test_transaction_state() {
    let mut s: TransactionState;
    s = TransactionState::from(0);
    assert_eq!(format!("{:?}", s), "Prepare");
    s = TransactionState::from(1);
    assert_eq!(format!("{:?}", s), "Commit");
    s = TransactionState::from(2);
    assert_eq!(format!("{:?}", s), "Abort");
}

#[test]
fn prepare_request_round_trip() {
    let request = EntityPayload::new(42, 1000);
    let datagram = request.encode();
    assert_eq!(
        datagram,
        vec![0u8, 0, 0, 0, 0, 0, 0, 0, 42, 0, 0, 0, 0, 0, 0, 3, 232]
    );
    assert_eq!(EntityPayload::decode(&datagram), Ok(request));
    assert_eq!(request.transaction_state, TransactionState::Prepare);
}

#[test]
fn request_of_wrong_length_is_rejected() {
    assert_eq!(EntityPayload::decode(&[0u8; 16]), Err(DecodeError::Length));
    assert_eq!(EntityPayload::decode(&[0u8; 18]), Err(DecodeError::Length));
    assert_eq!(EntityPayload::decode(&[]), Err(DecodeError::Length));
    let mut unknown = [0u8; 17];
    unknown[0] = 3;
    assert_eq!(EntityPayload::decode(&unknown), Err(DecodeError::State));
}

#[test]
fn zero_cost_legs_send_nothing() {
    let data = TransactionRequest::new(1, 10, 0, 5).get_entities_data();
    assert_eq!(data.len(), 2);
    assert_eq!(data[0].0, EntityType::Hotel);
    assert_eq!(data[1].0, EntityType::Airline);
    assert_eq!(data[1].1, EntityPayload::new(1, 5));
}

#[test]
fn response_round_trip() {
    let response = TransactionResponse::new(0x0102030405060708, TransactionState::Abort);
    let datagram = response.encode();
    assert_eq!(datagram, vec![2u8, 1, 2, 3, 4, 5, 6, 7, 8]);
    assert_eq!(TransactionResponse::decode(&datagram), Ok(response));
    assert_eq!(
        TransactionResponse::decode(&datagram[..8]),
        Err(DecodeError::Length)
    );
    assert_eq!(
        TransactionResponse::decode(&[9u8, 0, 0, 0, 0, 0, 0, 0, 1]),
        Err(DecodeError::State)
    );
}

#[test]
fn state_bytes() {
    assert_eq!(TransactionState::Prepare.into_byte(), 0);
    assert_eq!(TransactionState::Commit.into_byte(), 1);
    assert_eq!(TransactionState::Abort.into_byte(), 2);
    assert_eq!(TransactionState::decode(1), Ok(TransactionState::Commit));
    assert_eq!(TransactionState::decode(3), Err(DecodeError::State));
    assert_eq!(TransactionState::decode(255), Err(DecodeError::State));
    assert!(TransactionState::Commit.on_wire());
    assert!(!TransactionState::Wait.on_wire());
    assert!(!TransactionState::Accept.on_wire());
}

#[test]
fn big_endian_reads_the_first_eight_bytes() {
    assert_eq!(
        be_byte_buffer_to_u64(&[0, 0, 0, 0, 0, 0, 1, 0, 99]),
        256
    );
    assert_eq!(be_byte_buffer_to_u64(&[255; 8]), u64::MAX);
    let mut buffer = vec![7u8];
    push_be_u64(&mut buffer, 1000);
    assert_eq!(buffer, vec![7u8, 0, 0, 0, 0, 0, 0, 3, 232]);
    assert_eq!(buffer[1..].to_vec(), 1000u64.to_be_bytes().to_vec());
    assert_eq!(
        be_byte_buffer_to_u64(&0xdead_beef_0bad_f00du64.to_be_bytes()),
        0xdead_beef_0bad_f00d
    );
}

#[test]
fn commit_request_carries_its_state() {
    let request = EntityPayload {
        transaction_state: TransactionState::Commit,
        transaction_id: 1,
        cost: 0,
    };
    let datagram = request.encode();
    assert_eq!(datagram.len(), 17);
    assert_eq!(datagram[0], 1);
    assert_eq!(EntityPayload::decode(&datagram), Ok(request));
}

#[test]
fn legs_without_state() {
    let leg = EntityData::new(3, 258);
    assert_eq!(
        leg.encode(),
        vec![0u8, 0, 0, 0, 0, 0, 0, 3, 0, 0, 0, 0, 0, 0, 1, 2]
    );
    let transaction = Transaction {
        id: 3,
        hotel_cost: 0,
        bank_cost: 258,
        airline_cost: 1,
    };
    let data = transaction.get_entities_data();
    assert_eq!(data.len(), 2);
    assert_eq!(data[0], (Entity::Bank, leg));
    let deliveries = serve_transaction(ServeTransaction::new(transaction));
    assert_eq!(deliveries.len(), 2);
    assert_eq!(deliveries[0].entity, Entity::Bank);
    assert_eq!(deliveries[0].payload, leg.encode());
    assert_eq!(deliveries[1].entity, Entity::Airline);
    assert_eq!(deliveries[1].payload[15], 1);
}
