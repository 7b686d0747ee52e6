use crate::application::ApplicationError;
use vstd::prelude::*;

verus! {

/// Whether a host call succeeded.
#[allow(non_camel_case_types)]
#[derive(Clone, Copy, Debug, PartialEq, Eq, Structural)]
pub enum ReturnCode {
    SUCCESS,
    FAIL,
}

/// An optional value as the host sees it.
#[derive(Debug)]
pub enum COption<T> {
    Absent,
    Present(T),
}

/// What a host call hands back: a value, if any, and a code.
#[derive(Debug)]
pub struct Return<T> {
    pub data: COption<T>,
    pub code: ReturnCode,
}

/// The reply to a resource lookup: the path on success, nothing and a failure
/// code on an error or when no path came back.
pub fn resource_reply(r: Result<Option<String>, ApplicationError>) -> (out: Return<String>)
    ensures
        match r {
            Ok(Some(p)) => out.code == ReturnCode::SUCCESS && out.data == COption::Present(p),
            _ => out.code == ReturnCode::FAIL && out.data is Absent,
        },
{
    match r {
        Ok(Some(p)) => Return { data: COption::Present(p), code: ReturnCode::SUCCESS },
        _ => Return { data: COption::Absent, code: ReturnCode::FAIL },
    }
}

/// The reply to a descriptor lookup: an absent descriptor is still a success;
/// only an error fails.
pub fn descriptor_reply(r: Result<Option<String>, ApplicationError>) -> (out: Return<String>)
    ensures
        match r {
            Ok(Some(text)) => out.code == ReturnCode::SUCCESS && out.data == COption::Present(text),
            Ok(None) => out.code == ReturnCode::SUCCESS && out.data is Absent,
            Err(_) => out.code == ReturnCode::FAIL && out.data is Absent,
        },
{
    match r {
        Ok(Some(text)) => Return { data: COption::Present(text), code: ReturnCode::SUCCESS },
        Ok(None) => Return { data: COption::Absent, code: ReturnCode::SUCCESS },
        Err(_) => Return { data: COption::Absent, code: ReturnCode::FAIL },
    }
}

} // verus!
