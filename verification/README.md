# vector_delivery

How a Kafka client is told to authenticate, and how objects are delivered to S3-compatible
storage: the decisions, verified with [Verus](https://github.com/verus-lang/verus).

- `src/kafka/`: authentication options (`config`), the client settings that they ask for (`auth`,
  `client`, `path`, `error`), tokens for AWS MSK IAM (`token`), and what holds of the settings as a
  whole (`laws`).
- `src/s3/`: the parameters of a `PutObject` call (`request`, `checksum`, `tags`, `form`, `order`,
  `parse`), the labels of failures (`failure`, `sdk`), the health of a sink (`health`), what is
  logged and counted (`delivery`, `signal`), and what holds over many attempts (`laws`).
- `app/`: the network, the threads and the locks around it.
