//! A signing request for the Bitcoin network.

use vstd::prelude::*;

verus! {

/// One spendable output that the caller asserts to own.
#[derive(Debug, PartialEq, Eq)]
pub struct BitcoinTransactionInput {
    /// Id of the transaction that holds the output, as 64 hexadecimal digits.
    pub txid: String,
    /// Index of the output in that transaction.
    pub vout: u32,
    /// Amount of the output, in minor units.
    pub amount: u64,
    /// Address that the output pays to.
    pub address: String,
}

/// One payment to make.
#[derive(Debug, PartialEq, Eq)]
pub struct BitcoinTransactionOutput {
    /// Address to pay.
    pub address: String,
    /// Amount to pay, in minor units.
    pub amount: u64,
}

/// Everything needed to assemble and sign one transaction: the inputs to spend, the
/// outputs to create, where the change goes, the key that signs, and the fee rate.
pub struct BitcoinTransactionData {
    inputs: Vec<BitcoinTransactionInput>,
    outputs: Vec<BitcoinTransactionOutput>,
    change_address: String,
    private_key: String,
    fee_rate: u64,
}

/// Mathematical value of a [`BitcoinTransactionInput`].
pub ghost struct InputSpec {
    pub txid: Seq<char>,
    pub vout: u32,
    pub amount: u64,
    pub address: Seq<char>,
}

/// Mathematical value of a [`BitcoinTransactionOutput`].
pub ghost struct OutputSpec {
    pub address: Seq<char>,
    pub amount: u64,
}

/// Mathematical value of a [`BitcoinTransactionData`].
pub ghost struct SigningRequest {
    pub inputs: Seq<InputSpec>,
    pub outputs: Seq<OutputSpec>,
    pub change_address: Seq<char>,
    pub private_key: Seq<char>,
    pub fee_rate: u64,
}

impl View for BitcoinTransactionInput {
    type V = InputSpec;

    open spec fn view(&self) -> InputSpec {
        InputSpec { txid: self.txid@, vout: self.vout, amount: self.amount, address: self.address@ }
    }
}

impl View for BitcoinTransactionOutput {
    type V = OutputSpec;

    open spec fn view(&self) -> OutputSpec {
        OutputSpec { address: self.address@, amount: self.amount }
    }
}

/// The values of a list of inputs, in order.
pub open spec fn input_specs(inputs: Seq<BitcoinTransactionInput>) -> Seq<InputSpec> {
    Seq::new(inputs.len(), |i: int| inputs[i]@)
}

/// The values of a list of outputs, in order.
pub open spec fn output_specs(outputs: Seq<BitcoinTransactionOutput>) -> Seq<OutputSpec> {
    Seq::new(outputs.len(), |i: int| outputs[i]@)
}

impl View for BitcoinTransactionData {
    type V = SigningRequest;

    closed spec fn view(&self) -> SigningRequest {
        SigningRequest {
            inputs: input_specs(self.inputs@),
            outputs: output_specs(self.outputs@),
            change_address: self.change_address@,
            private_key: self.private_key@,
            fee_rate: self.fee_rate,
        }
    }
}

impl BitcoinTransactionData {
    /// A request with no inputs and no outputs, whose change returns to the source
    /// address, at a fee rate of 1 minor unit per virtual byte.
    pub fn new(source_address: &str, private_key: &str) -> (data: Self)
        ensures
            data@ == (SigningRequest {
                inputs: Seq::empty(),
                outputs: Seq::empty(),
                change_address: source_address@,
                private_key: private_key@,
                fee_rate: 1,
            }),
    {
        let data = Self {
            inputs: Vec::new(),
            outputs: Vec::new(),
            change_address: source_address.to_owned(),
            private_key: private_key.to_owned(),
            fee_rate: 1,
        };
        assert(input_specs(data.inputs@) =~= Seq::empty());
        assert(output_specs(data.outputs@) =~= Seq::empty());
        data
    }

    /// A request made of the given parts.
    pub fn from_parts(
        inputs: Vec<BitcoinTransactionInput>,
        outputs: Vec<BitcoinTransactionOutput>,
        change_address: String,
        private_key: String,
        fee_rate: u64,
    ) -> (data: Self)
        ensures
            data@ == (SigningRequest {
                inputs: input_specs(inputs@),
                outputs: output_specs(outputs@),
                change_address: change_address@,
                private_key: private_key@,
                fee_rate,
            }),
    {
        Self { inputs, outputs, change_address, private_key, fee_rate }
    }

    /// Appends an input that spends output `vout` of transaction `txid`, worth `amount`
    /// minor units and paid to the change address.
    pub fn push_input(&mut self, txid: &str, vout: u32, amount: u64)
        ensures
            final(self)@ == (SigningRequest {
                inputs: old(self)@.inputs.push(
                    InputSpec { txid: txid@, vout, amount, address: old(self)@.change_address },
                ),
                ..old(self)@
            }),
    {
        let new_input = BitcoinTransactionInput {
            txid: txid.to_owned(),
            vout,
            amount,
            address: self.change_address.clone(),
        };
        self.inputs.push(new_input);
        assert(input_specs(self.inputs@) =~= input_specs(old(self).inputs@).push(new_input@));
    }

    /// Appends an output that pays `amount` minor units to `address`.
    pub fn push_output(&mut self, address: &str, amount: u64)
        ensures
            final(self)@ == (SigningRequest {
                outputs: old(self)@.outputs.push(OutputSpec { address: address@, amount }),
                ..old(self)@
            }),
    {
        let new_output = BitcoinTransactionOutput { address: address.to_owned(), amount };
        self.outputs.push(new_output);
        assert(output_specs(self.outputs@) =~= output_specs(old(self).outputs@).push(
            new_output@,
        ));
    }

    /// Replaces the fee rate, in minor units per virtual byte.
    pub fn set_fee_rate(&mut self, fee_rate: u64)
        ensures
            final(self)@ == (SigningRequest { fee_rate, ..old(self)@ }),
    {
        self.fee_rate = fee_rate;
    }

    /// The inputs to spend, in order.
    pub fn inputs(&self) -> (inputs: &Vec<BitcoinTransactionInput>)
        ensures
            input_specs(inputs@) == self@.inputs,
    {
        &self.inputs
    }

    /// The outputs to create, in order.
    pub fn outputs(&self) -> (outputs: &Vec<BitcoinTransactionOutput>)
        ensures
            output_specs(outputs@) == self@.outputs,
    {
        &self.outputs
    }

    /// The address that receives the change.
    pub fn change_address(&self) -> (address: &str)
        ensures
            address@ == self@.change_address,
    {
        self.change_address.as_str()
    }

    /// The signing key, in wallet import format.
    pub fn private_key(&self) -> (key: &str)
        ensures
            key@ == self@.private_key,
    {
        self.private_key.as_str()
    }

    /// The fee rate, in minor units per virtual byte.
    pub fn fee_rate(&self) -> (rate: u64)
        ensures
            rate == self@.fee_rate,
    {
        self.fee_rate
    }
}

} // verus!
