//! Order lifecycle and payment orchestration for a small food-ordering
//! service: catalog items are attached to orders slot by slot, a payment
//! gateway confirms charges synchronously, and a webhook adapter applies
//! asynchronous payment notifications.

pub mod busca;
pub mod cliente;
pub mod cliente_repository;
pub mod cpf;
pub mod domain_error;
pub mod in_memory_user_repository;
pub mod ingredientes;
pub mod mercadopago_pagamento_webhook_adapter;
pub mod mock;
pub mod pagamento;
pub mod pagamento_repository;
pub mod pedido;
pub mod pedido_controller;
pub mod pedido_repository;
pub mod pedidos_e_pagamentos_use_case;
pub mod produto;
pub mod produto_repository;
pub mod relogio;
pub mod tabela;
pub mod texto;
pub mod usuario;
pub mod usuario_repository;
pub mod usuario_use_case;
pub mod usuarios;

pub use domain_error::DomainError;
