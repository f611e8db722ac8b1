//! The command demonstration: requests against the business logic are
//! wrapped up as objects and replayed by an invoker.

use std::rc::Rc;

use vstd::prelude::*;

verus! {

pub struct BusinessLogic {}

impl BusinessLogic {
    pub fn new() -> (l: BusinessLogic) {
        BusinessLogic {}
    }

    pub fn open(&self) -> (r: String)
        ensures
            r@ == "Open transaction"@,
    {
        "Open transaction".to_owned()
    }

    pub fn validate(&self) -> (r: String)
        ensures
            r@ == "Validate transaction"@,
    {
        "Validate transaction".to_owned()
    }

    pub fn close(&self) -> (r: String)
        ensures
            r@ == "Close transaction"@,
    {
        "Close transaction".to_owned()
    }
}

pub trait Command {
    /// The line the wrapped request reports.
    spec fn spec_execute(&self) -> Seq<char>;

    fn execute(&self) -> (r: String)
        ensures
            r@ == self.spec_execute(),
    ;
}

pub struct OpenCommand {
    pub logic: Rc<BusinessLogic>,
}

impl OpenCommand {
    pub fn new(logic: Rc<BusinessLogic>) -> (c: OpenCommand)
        ensures
            c.logic == logic,
    {
        OpenCommand { logic }
    }
}

impl Command for OpenCommand {
    open spec fn spec_execute(&self) -> Seq<char> {
        "Open transaction"@
    }

    fn execute(&self) -> (r: String) {
        self.logic.open()
    }
}

pub struct ValidateCommand {
    pub logic: Rc<BusinessLogic>,
}

impl ValidateCommand {
    pub fn new(logic: Rc<BusinessLogic>) -> (c: ValidateCommand)
        ensures
            c.logic == logic,
    {
        ValidateCommand { logic }
    }
}

impl Command for ValidateCommand {
    open spec fn spec_execute(&self) -> Seq<char> {
        "Validate transaction"@
    }

    fn execute(&self) -> (r: String) {
        self.logic.validate()
    }
}

pub struct CloseCommand {
    pub logic: Rc<BusinessLogic>,
}

impl CloseCommand {
    pub fn new(logic: Rc<BusinessLogic>) -> (c: CloseCommand)
        ensures
            c.logic == logic,
    {
        CloseCommand { logic }
    }
}

impl Command for CloseCommand {
    open spec fn spec_execute(&self) -> Seq<char> {
        "Close transaction"@
    }

    fn execute(&self) -> (r: String) {
        self.logic.close()
    }
}

/// Holds one command per request kind and replays them on demand.
pub struct UserInvoker {
    pub open: OpenCommand,
    pub validate: ValidateCommand,
    pub close: CloseCommand,
}

impl UserInvoker {
    pub fn new(open: OpenCommand, validate: ValidateCommand, close: CloseCommand) -> (u:
        UserInvoker)
        ensures
            u.open == open,
            u.validate == validate,
            u.close == close,
    {
        UserInvoker { open, validate, close }
    }

    pub fn open(&self) -> (r: String)
        ensures
            r@ == "Open transaction"@,
    {
        self.open.execute()
    }

    pub fn validate(&self) -> (r: String)
        ensures
            r@ == "Validate transaction"@,
    {
        self.validate.execute()
    }

    pub fn close(&self) -> (r: String)
        ensures
            r@ == "Close transaction"@,
    {
        self.close.execute()
    }
}

} // verus!
