pub mod data;
pub mod exchange;
pub mod flow;
pub mod httpserve;
pub mod ide;
pub mod jsonx;
pub mod jwt;
pub mod seqx;
pub mod outside;
pub mod pkce;
pub mod proxy;
pub mod quota;
pub mod storage;
pub mod strutil;
pub mod urlx;
