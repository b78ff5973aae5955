# sistema_ventas

A point of sale for a small store: two sales in progress at once, parked sales, payments
by several means (cash, cards, a client's current account), a cash register session with
its totals per means of payment, clients' debts, suppliers and searches over the
articles in stock.

The library in `src/` is written in Verus: every function carries a contract and is
proved against it. Amounts are integers (cents, and thousandths for weights and
quantities), so totals, rounding and the sharing of a payment over a client's debts are
exact.

- `venta`: a sale — items, payments, totals, what closing it means, and the rows it is
  stored in.
- `sistema`: the point of sale as a whole — sessions, both positions, parked sales,
  closing sales and register sessions, searches.
- `caja`: the register session and its totals.
- `cliente`: clients, their credit and the sharing of a payment over their debts.
- `valuable`, `pago`, `config`, `user`, `proveedor`, `vendedor`: the values the point of
  sale works with.
- `db`: the rows of the store and how they become values, and the statements that load
  articles in bulk.
- `texto`, `calculo`, `clave`, `estilos`: reading and writing numbers and words,
  rounding, password hashes and style sheets.

`app/` is the program around the library: it reads the JSON files the store starts from,
keeps the SQLite database, and answers commands typed at a terminal.

Verify with Verus; the tests in `tests/` run the library on concrete values.
