//! What can go wrong while an image is named or a file renamed, and how it is told to the user.

use crate::text::{join, decimal, decimal_string};
use vstd::prelude::*;
use vstd::string::StringExecFns;

verus! {

/// A failure of one of the operations.
#[derive(Debug)]
pub enum Failure {
    /// The text given as a path is a placeholder and names no file.
    InvalidPath,
    /// No file lies at `path`.
    FileNotFound { path: String },
    /// The file at `path` could not be read.
    ReadError { path: String, cause: String },
    /// The request did not reach the endpoint, or no answer came back.
    NetworkError { message: String },
    /// The endpoint answered with a status that is no success.
    ApiError { status: u16 },
    /// The endpoint answered with a body that could not be read as the expected JSON.
    ParseError { message: String },
    /// The file at `path` could not be renamed.
    RenameFailed { path: String, cause: String },
}

/// A failure as plain values.
pub enum FailureView {
    InvalidPath,
    FileNotFound { path: Seq<char> },
    ReadError { path: Seq<char>, cause: Seq<char> },
    NetworkError { message: Seq<char> },
    ApiError { status: u16 },
    ParseError { message: Seq<char> },
    RenameFailed { path: Seq<char>, cause: Seq<char> },
}

impl View for Failure {
    type V = FailureView;

    open spec fn view(&self) -> FailureView {
        match *self {
            Failure::InvalidPath => FailureView::InvalidPath,
            Failure::FileNotFound { path } => FailureView::FileNotFound { path: path@ },
            Failure::ReadError { path, cause } => FailureView::ReadError {
                path: path@,
                cause: cause@,
            },
            Failure::NetworkError { message } => FailureView::NetworkError { message: message@ },
            Failure::ApiError { status } => FailureView::ApiError { status },
            Failure::ParseError { message } => FailureView::ParseError { message: message@ },
            Failure::RenameFailed { path, cause } => FailureView::RenameFailed {
                path: path@,
                cause: cause@,
            },
        }
    }
}

/// The message that tells the user of `failure`.
pub open spec fn message_text(failure: FailureView) -> Seq<char> {
    match failure {
        FailureView::InvalidPath =>
            "当前文件路径无效。请尝试：1) 重新拖拽文件到应用窗口 2) 检查应用的文件拖拽权限"@,
        FailureView::FileNotFound { path } => "文件不存在："@ + path,
        FailureView::ReadError { path, cause } => "读取图片失败："@ + cause + "。文件路径："@ + path,
        FailureView::NetworkError { message } => "网络请求失败："@ + message,
        FailureView::ApiError { status } => "API请求失败：HTTP "@ + decimal(status as nat),
        FailureView::ParseError { message } => "解析响应失败："@ + message,
        FailureView::RenameFailed { path, cause } => "重命名文件失败 "@ + path + ": "@ + cause,
    }
}

impl Failure {
    /// The message that tells the user of this failure.
    pub fn message(&self) -> (text: String)
        ensures
            text@ == message_text(self@),
    {
        match self {
            Failure::InvalidPath => String::from_str(
                "当前文件路径无效。请尝试：1) 重新拖拽文件到应用窗口 2) 检查应用的文件拖拽权限",
            ),
            Failure::FileNotFound { path } => join("文件不存在：", path.as_str()),
            Failure::ReadError { path, cause } => {
                let mut text = join("读取图片失败：", cause.as_str());
                text.append("。文件路径：");
                text.append(path.as_str());
                text
            },
            Failure::NetworkError { message } => join("网络请求失败：", message.as_str()),
            Failure::ApiError { status } => {
                let code = decimal_string(*status as u64);
                join("API请求失败：HTTP ", code.as_str())
            },
            Failure::ParseError { message } => join("解析响应失败：", message.as_str()),
            Failure::RenameFailed { path, cause } => {
                let mut text = join("重命名文件失败 ", path.as_str());
                text.append(": ");
                text.append(cause.as_str());
                text
            },
        }
    }
}

} // verus!
