//! The outcome of a settlement, and the answer that reports a failed one.
use vstd::prelude::*;
use vstd::string::StringExecFns;
use serde_json::Value;
use crate::codec::views;
use crate::document::{
    deref_opt, flag_value, get_member, json_is_null, new_members, object_value, optional_text_value,
    put, read_flag, read_network, read_optional_text, read_text, spec_member, spec_read_flag,
    spec_read_network, spec_read_optional_text, spec_read_text, text_value,
};
use crate::errors::{X402Error, X402PaymentErrorStatusCode, X402Result};
use crate::network::{lemma_network_round_trip, serialize_network, X402SolanaNetworkInfo};
use crate::payment_requirements::PaymentRequirements;
use crate::payment_response::{PaymentRequirementsResponse, PaymentRequirementsResponseView};
use crate::text::{decimal_digits, decimal_string};
use crate::version::X402Version;
use crate::wire::{
    bool_text, json_bool, json_opt_string, json_string, member, opt_str, opt_string_text,
    put_member, quote,
};

verus! {

/// The outcome of a settlement, with data of the caller's own attached.
#[derive(Debug, PartialEq, Eq, PartialOrd, Ord, Clone)]
pub struct SettlementResponse<T: Clone> {
    /// Whether the payment was settled.
    success: bool,
    /// Hash of the blockchain transaction, if there is one.
    transaction: Option<String>,
    /// Blockchain network of the settlement.
    network: X402SolanaNetworkInfo,
    /// Address of the wallet that paid.
    payer: String,
    /// What the caller attached.
    data: T,
    /// When the settlement took place, as text.
    timestamp: String,
}

/// What a `SettlementResponse` holds, as mathematical values.
pub struct SettlementResponseView<T> {
    pub success: bool,
    pub transaction: Option<Seq<char>>,
    pub network: X402SolanaNetworkInfo,
    pub payer: Seq<char>,
    pub data: T,
    pub timestamp: Seq<char>,
}

impl<T: Clone> View for SettlementResponse<T> {
    type V = SettlementResponseView<T>;

    closed spec fn view(&self) -> SettlementResponseView<T> {
        SettlementResponseView {
            success: self.success,
            transaction: self.transaction.deep_view(),
            network: self.network,
            payer: self.payer@,
            data: self.data,
            timestamp: self.timestamp@,
        }
    }
}

impl<T: Clone> SettlementResponse<T> {
    /// The JSON text of a settlement whose attached data is already written as `data`.
    pub open spec fn spec_json(v: SettlementResponseView<T>, data: Seq<char>) -> Seq<char> {
        "{"@
            + member(true, "success"@, json_bool(v.success))
            + member(false, "transaction"@, json_opt_string(v.transaction))
            + member(false, "network"@, json_string(v.network.spec_x402_identifier()))
            + member(false, "payer"@, json_string(v.payer))
            + member(false, "data"@, data)
            + member(false, "timestamp"@, json_string(v.timestamp))
            + "}"@
    }

    /// A settlement that holds the given outcome and attached data, on the default
    /// network, with no transaction and with empty payer and timestamp.
    pub fn with_data(success: bool, data: T) -> (r: Self)
        ensures
            r@ == (SettlementResponseView {
                success,
                transaction: None,
                network: X402SolanaNetworkInfo::Devnet,
                payer: Seq::<char>::empty(),
                data,
                timestamp: Seq::<char>::empty(),
            }),
    {
        SettlementResponse {
            success,
            transaction: None,
            network: X402SolanaNetworkInfo::Devnet,
            payer: String::new(),
            data,
            timestamp: String::new(),
        }
    }

    /// Sets `transaction`: hash of the blockchain transaction, if there is one.
    pub fn set_transaction_signature(&mut self, transaction_signature: &str) -> (r: &mut Self)
        ensures
            *final(self) == *final(r),
            (*r)@ == (SettlementResponseView {
                transaction: Some(transaction_signature@),
                ..old(self)@
            }),
    {
        self.transaction = Some(transaction_signature.to_owned());
        self
    }

    /// Sets `data`: what the caller attached.
    pub fn set_data(&mut self, data: T) -> (r: &mut Self)
        ensures
            *final(self) == *final(r),
            (*r)@ == (SettlementResponseView { data: data, ..old(self)@ }),
    {
        self.data = data;
        self
    }

    /// Sets `timestamp`: when the settlement took place, as text.
    pub fn set_timestamp(&mut self, timestamp: &str) -> (r: &mut Self)
        ensures
            *final(self) == *final(r),
            (*r)@ == (SettlementResponseView { timestamp: timestamp@, ..old(self)@ }),
    {
        self.timestamp = timestamp.to_owned();
        self
    }

    /// Sets `payer`: address of the wallet that paid.
    pub fn set_payer(&mut self, fee_payer: &str) -> (r: &mut Self)
        ensures
            *final(self) == *final(r),
            (*r)@ == (SettlementResponseView { payer: fee_payer@, ..old(self)@ }),
    {
        self.payer = fee_payer.to_owned();
        self
    }

    /// Chooses the network `Mainnet`.
    pub fn set_mainnet(&mut self) -> (r: &mut Self)
        ensures
            *final(self) == *final(r),
            (*r)@ == (SettlementResponseView {
                network: X402SolanaNetworkInfo::Mainnet,
                ..old(self)@
            }),
    {
        self.network = X402SolanaNetworkInfo::Mainnet;
        self
    }

    /// Chooses the network `Testnet`.
    pub fn set_testnet(&mut self) -> (r: &mut Self)
        ensures
            *final(self) == *final(r),
            (*r)@ == (SettlementResponseView {
                network: X402SolanaNetworkInfo::Testnet,
                ..old(self)@
            }),
    {
        self.network = X402SolanaNetworkInfo::Testnet;
        self
    }

    /// Chooses the network `Devnet`.
    pub fn set_devnet(&mut self) -> (r: &mut Self)
        ensures
            *final(self) == *final(r),
            (*r)@ == (SettlementResponseView {
                network: X402SolanaNetworkInfo::Devnet,
                ..old(self)@
            }),
    {
        self.network = X402SolanaNetworkInfo::Devnet;
        self
    }

    /// Chooses the network `Localnet`.
    pub fn set_localnet(&mut self) -> (r: &mut Self)
        ensures
            *final(self) == *final(r),
            (*r)@ == (SettlementResponseView {
                network: X402SolanaNetworkInfo::Localnet,
                ..old(self)@
            }),
    {
        self.network = X402SolanaNetworkInfo::Localnet;
        self
    }

    /// Whether the payment was settled.
    pub fn success(&self) -> (r: bool)
        ensures
            r == self@.success,
    {
        self.success
    }

    /// Hash of the blockchain transaction, if there is one.
    pub fn transaction(&self) -> (r: Option<&str>)
        ensures
            r.deep_view() == self@.transaction,
    {
        match &self.transaction {
            Some(s) => Some(s.as_str()),
            None => None,
        }
    }

    /// Blockchain network of the settlement.
    pub fn network(&self) -> (r: X402SolanaNetworkInfo)
        ensures
            r == self@.network,
    {
        self.network
    }

    /// Address of the wallet that paid.
    pub fn payer(&self) -> (r: &str)
        ensures
            r@ == self@.payer,
    {
        self.payer.as_str()
    }

    /// When the settlement took place, as text.
    pub fn timestamp(&self) -> (r: &str)
        ensures
            r@ == self@.timestamp,
    {
        self.timestamp.as_str()
    }

    /// What the caller attached.
    pub fn data(&self) -> (r: &T)
        ensures
            *r == self@.data,
    {
        &self.data
    }

    /// What a JSON value reads as a settlement, beside the attached data, which the caller
    /// reads. The members are read in the order in which they are written; the first that
    /// is missing or malformed decides the error.
    pub open spec fn spec_read(doc: Value, data: T) -> Result<
        SettlementResponseView<T>,
        X402Error,
    > {
        let success = spec_read_flag(spec_member(doc, "success"@));
        let transaction = spec_read_optional_text(spec_member(doc, "transaction"@));
        let network = spec_read_network(spec_member(doc, "network"@));
        let payer = spec_read_text(spec_member(doc, "payer"@));
        let timestamp = spec_read_text(spec_member(doc, "timestamp"@));
        if success is Err {
            Err(success->Err_0)
        } else if transaction is Err {
            Err(transaction->Err_0)
        } else if network is Err {
            Err(network->Err_0)
        } else if payer is Err {
            Err(payer->Err_0)
        } else if timestamp is Err {
            Err(timestamp->Err_0)
        } else {
            Ok(
                SettlementResponseView {
                    success: success->Ok_0,
                    transaction: transaction->Ok_0,
                    network: network->Ok_0,
                    payer: payer->Ok_0,
                    data,
                    timestamp: timestamp->Ok_0,
                },
            )
        }
    }

    /// What tells the keys of a settlement apart.
    proof fn reveal_keys()
        ensures
            "success"@.len() == 7,
            "transaction"@.len() == 11,
            "network"@.len() == 7,
            "payer"@.len() == 5,
            "data"@.len() == 4,
            "timestamp"@.len() == 9,
            "success"@[0] != "network"@[0],
    {
        reveal_strlit("success");
        reveal_strlit("transaction");
        reveal_strlit("network");
        reveal_strlit("payer");
        reveal_strlit("data");
        reveal_strlit("timestamp");
    }

    /// The member of a JSON value that holds the attached data, if there is one.
    pub fn data_member(doc: &Value) -> (r: Option<&Value>)
        ensures
            deref_opt(r) == spec_member(*doc, "data"@),
    {
        get_member(doc, "data")
    }

    /// Reads a settlement from a JSON value, beside the attached data, which the caller
    /// has read.
    pub fn from_document_with(doc: &Value, data: T) -> (r: X402Result<Self>)
        ensures
            match r {
                Ok(v) => SettlementResponse::<T>::spec_read(*doc, data) == Ok::<
                    SettlementResponseView<T>,
                    X402Error,
                >(v@),
                Err(e) => SettlementResponse::<T>::spec_read(*doc, data) == Err::<
                    SettlementResponseView<T>,
                    X402Error,
                >(e),
            },
    {
        let success = read_flag(get_member(doc, "success"))?;
        let transaction = read_optional_text(get_member(doc, "transaction"))?;
        let network = read_network(get_member(doc, "network"))?;
        let payer = read_text(get_member(doc, "payer"))?;
        let timestamp = read_text(get_member(doc, "timestamp"))?;
        Ok(SettlementResponse { success, transaction, network, payer, data, timestamp })
    }

    /// Builds the JSON value of a settlement, around attached data that is already built.
    /// What is built holds the data as given and reads back as the settlement.
    pub fn to_document_with(&self, data: Value) -> (r: Value)
        ensures
            SettlementResponse::<T>::spec_read(r, self@.data) == Ok::<
                SettlementResponseView<T>,
                X402Error,
            >(self@),
            spec_member(r, "data"@) == Some(data),
            !json_is_null(r),
    {
        let mut members = new_members();
        put(&mut members, "success", flag_value(self.success));
        put(&mut members, "transaction", optional_text_value(opt_str(&self.transaction)));
        put(&mut members, "network", text_value(serialize_network(&self.network)));
        put(&mut members, "payer", text_value(self.payer.as_str()));
        put(&mut members, "data", data);
        put(&mut members, "timestamp", text_value(self.timestamp.as_str()));
        let r = object_value(members);
        proof {
            SettlementResponse::<T>::reveal_keys();
            lemma_network_round_trip(self.network);
        }
        r
    }

    /// Writes the settlement as JSON text, around attached data that is already written.
    pub fn to_json_with(&self, data: &str) -> (r: String)
        ensures
            r@ == SettlementResponse::<T>::spec_json(self@, data@),
    {
        let mut out = "{".to_owned();
        put_member(&mut out, true, "success", bool_text(self.success));
        let value = opt_string_text(opt_str(&self.transaction));
        put_member(&mut out, false, "transaction", value.as_str());
        let value = quote(serialize_network(&self.network));
        put_member(&mut out, false, "network", value.as_str());
        let value = quote(self.payer.as_str());
        put_member(&mut out, false, "payer", value.as_str());
        put_member(&mut out, false, "data", data);
        let value = quote(self.timestamp.as_str());
        put_member(&mut out, false, "timestamp", value.as_str());
        out.append("}");
        out
    }
}

impl<T: Clone + Default> SettlementResponse<T> {
    /// A settlement that holds the given outcome and the default of the attached data, on
    /// the default network, with no transaction and with empty payer and timestamp.
    pub fn new(success: bool) -> (r: Self)
        ensures
            r@.success == success,
            r@.transaction == None::<Seq<char>>,
            r@.network == X402SolanaNetworkInfo::Devnet,
            r@.payer == Seq::<char>::empty(),
            r@.timestamp == Seq::<char>::empty(),
    {
        SettlementResponse::with_data(success, T::default())
    }
}

/// A payment-required answer together with the status class under which it is reported.
#[derive(Debug, PartialEq, Eq, PartialOrd, Ord, Clone)]
pub struct SettlementResponseError {
    /// The answer that lists the accepted payment methods.
    payload: PaymentRequirementsResponse,
    /// The status class of the answer.
    status_code: X402PaymentErrorStatusCode,
}

/// What a `SettlementResponseError` holds, as mathematical values.
pub struct SettlementResponseErrorView {
    pub payload: PaymentRequirementsResponseView,
    pub status_code: X402PaymentErrorStatusCode,
}

impl View for SettlementResponseError {
    type V = SettlementResponseErrorView;

    closed spec fn view(&self) -> SettlementResponseErrorView {
        SettlementResponseErrorView {
            payload: self.payload@,
            status_code: self.status_code,
        }
    }
}

impl SettlementResponseError {
    /// The status line of a status class: its number, a space and its description.
    pub open spec fn spec_error_header(code: X402PaymentErrorStatusCode) -> Seq<char> {
        decimal_digits(code.spec_status_code() as nat) + " "@ + code.spec_description()
    }

    /// Reports the given answer under the status class `PaymentRequired`.
    pub fn new(payment_requirements: PaymentRequirementsResponse) -> (r: Self)
        ensures
            r@ == (SettlementResponseErrorView {
                payload: payment_requirements@,
                status_code: X402PaymentErrorStatusCode::PaymentRequired,
            }),
    {
        SettlementResponseError {
            payload: payment_requirements,
            status_code: X402PaymentErrorStatusCode::PaymentRequired,
        }
    }

    /// The answer that lists the accepted payment methods.
    pub fn inner(&self) -> (r: &PaymentRequirementsResponse)
        ensures
            r@ == self@.payload,
    {
        &self.payload
    }

    /// Gives up the answer that is reported.
    pub fn take(self) -> (r: PaymentRequirementsResponse)
        ensures
            r@ == self@.payload,
    {
        self.payload
    }

    /// Replaces the message of the answer.
    pub fn set_error_reason(self, error: &str) -> (r: Self)
        ensures
            r@ == (SettlementResponseErrorView {
                payload: PaymentRequirementsResponseView { error: error@, ..self@.payload },
                ..self@
            }),
    {
        let mut payload = self.payload;
        payload.set_error_reason(error);
        SettlementResponseError { payload, status_code: self.status_code }
    }

    /// Sets `status_code`: the status class of the answer.
    pub fn set_status_code(self, status_code: X402PaymentErrorStatusCode) -> (r: Self)
        ensures
            r@ == (SettlementResponseErrorView { status_code: status_code, ..self@ }),
    {
        SettlementResponseError { status_code: status_code, ..self }
    }

    /// Protocol version of the answer.
    pub fn x402_version(&self) -> (r: X402Version)
        ensures
            r == self@.payload.x402_version,
    {
        self.payload.x402_version()
    }

    /// The accepted payment methods of the answer, in order of preference.
    pub fn accepts(&self) -> (r: &[PaymentRequirements])
        ensures
            views(r@) == self@.payload.accepts,
    {
        self.payload.accepts()
    }

    /// The number of the status class.
    pub fn status_code(&self) -> (r: u16)
        ensures
            r == self@.status_code.spec_status_code(),
    {
        self.status_code.status_code()
    }

    /// The description of the status class.
    pub fn status_code_description(&self) -> (r: &'static str)
        ensures
            r@ == self@.status_code.spec_description(),
    {
        self.status_code.description()
    }

    /// The status line: the number of the status class, a space and its description.
    pub fn error_header(&self) -> (r: String)
        ensures
            r@ == SettlementResponseError::spec_error_header(self@.status_code),
    {
        let mut out = decimal_string(self.status_code.status_code() as u64);
        out.append(" ");
        out.append(self.status_code.description());
        out
    }

    /// The message of the answer.
    pub fn error_reason(&self) -> (r: &str)
        ensures
            r@ == self@.payload.error,
    {
        self.payload.error_reason()
    }
}

/// The status line of each status class, letter by letter.
pub proof fn lemma_error_headers(code: X402PaymentErrorStatusCode)
    ensures
        SettlementResponseError::spec_error_header(code) == match code {
            X402PaymentErrorStatusCode::PaymentRequired => "402 Payment Required"@,
            X402PaymentErrorStatusCode::InvalidPayment => "400 Invalid Payment"@,
            X402PaymentErrorStatusCode::PaymentFailed => "402 Payment Failed"@,
            X402PaymentErrorStatusCode::ServerError => "500 Server Error"@,
        },
{
    reveal_strlit("402 Payment Required");
    reveal_strlit("400 Invalid Payment");
    reveal_strlit("402 Payment Failed");
    reveal_strlit("500 Server Error");
    reveal_strlit("Payment Required");
    reveal_strlit("Invalid Payment");
    reveal_strlit("Payment Failed");
    reveal_strlit("Server Error");
    reveal_strlit(" ");
    reveal_with_fuel(decimal_digits, 4);
    assert(decimal_digits(402) =~= seq!['4', '0', '2']);
    assert(decimal_digits(400) =~= seq!['4', '0', '0']);
    assert(decimal_digits(500) =~= seq!['5', '0', '0']);
    match code {
        X402PaymentErrorStatusCode::PaymentRequired => {
            assert(SettlementResponseError::spec_error_header(code) =~= "402 Payment Required"@);
        },
        X402PaymentErrorStatusCode::InvalidPayment => {
            assert(SettlementResponseError::spec_error_header(code) =~= "400 Invalid Payment"@);
        },
        X402PaymentErrorStatusCode::PaymentFailed => {
            assert(SettlementResponseError::spec_error_header(code) =~= "402 Payment Failed"@);
        },
        X402PaymentErrorStatusCode::ServerError => {
            assert(SettlementResponseError::spec_error_header(code) =~= "500 Server Error"@);
        },
    }
}

} // verus!
