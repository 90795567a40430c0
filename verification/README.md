# sim800l

Driver logic for the SIM800L GSM/GPRS modem, verified with Verus.

- `src/` is the verified library: AT command strings (`commands`), the
  command builders and the per-event decisions of the synchronous driver
  (`modem`) and of the asynchronous one (`async_modem`), the sending of an
  SMS (`sms`), the recognition and
  parsing of the modem's answers (`response`, on top of the byte-level text
  functions of `text`), the error and record types (`error`), the timers
  (`timer`, `linux_adapter`), the trusted contracts of the `heapless`
  collections (`buffers`) and properties that span functions (`laws`).
- `app/` holds the drivers that own a UART (`Sim800L`, `AsyncSim800L` and
  its futures), the Linux serial port and the Raspberry Pi examples. They do
  the I/O and ask the library what to send and what each answer means.
- `tests/` runs the library on concrete answers and commands.
